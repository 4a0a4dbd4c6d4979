//! Track identifiers and their canonical external string form.
//!
//! An identifier is a 128-bit number plus the kind of item it names. Its
//! external form is the fixed-width, 22-character base-62 numeral over the
//! alphabet `0-9 a-z A-Z`, most significant digit first. An identifier whose
//! item kind is unknown has no canonical external form and is never emitted
//! across the boundary.

use vstd::prelude::*;
use vstd::arithmetic::div_mod::{lemma_breakdown, lemma_small_mod};
use vstd::string::StrSliceExecFns;

verus! {

/// The length of the external string form.
pub const TRACK_ID_LEN: usize = 22;

/// What a track identifier names. `Unknown` marks an identifier that cannot
/// be rendered to its external form: events carrying one are dropped rather
/// than emitted with a malformed identifier.
#[derive(Clone, Copy, PartialEq, Eq, Structural, Debug)]
pub enum ItemKind {
    Track,
    Episode,
    Unknown,
}

/// A track identifier: the raw 128-bit value and the item kind.
#[derive(Clone, Copy, PartialEq, Eq, Structural, Debug)]
pub struct TrackId {
    pub id: u128,
    pub kind: ItemKind,
}

impl TrackId {
    /// Whether the identifier has a canonical external string form.
    pub open spec fn renderable(self) -> bool {
        !(self.kind is Unknown)
    }
}

/// The byte of the base-62 digit `d`: `0-9`, then `a-z`, then `A-Z`.
pub open spec fn base62_digit(d: int) -> u8
    recommends
        0 <= d < 62,
{
    if d < 10 {
        (48 + d) as u8
    } else if d < 36 {
        (87 + d) as u8
    } else {
        (29 + d) as u8
    }
}

/// The last `len` base-62 digits of `n`, most significant first.
pub open spec fn base62_bytes(n: nat, len: nat) -> Seq<u8>
    decreases len,
{
    if len == 0 {
        Seq::empty()
    } else {
        base62_bytes(n / 62, (len - 1) as nat).push(base62_digit((n % 62) as int))
    }
}

/// The canonical external form of an identifier value: 22 base-62 digits.
pub open spec fn track_id_chars(id: u128) -> Seq<char> {
    base62_bytes(id as nat, TRACK_ID_LEN as nat).map_values(|b: u8| b as char)
}

/// The numeric value of a base-62 digit character, or a negative number for a
/// character outside the alphabet.
pub open spec fn base62_char_val(c: char) -> int {
    let u = c as int;
    if 48 <= u <= 57 {
        u - 48
    } else if 97 <= u <= 122 {
        u - 87
    } else if 65 <= u <= 90 {
        u - 29
    } else {
        -1
    }
}

/// Whether every character is a base-62 digit.
pub open spec fn base62_valid(s: Seq<char>) -> bool {
    forall|i: int| 0 <= i < s.len() ==> base62_char_val(s[i]) >= 0
}

/// The number a base-62 numeral denotes, most significant digit first.
pub open spec fn base62_value(s: Seq<char>) -> int
    decreases s.len(),
{
    if s.len() == 0 {
        0
    } else {
        base62_value(s.drop_last()) * 62 + base62_char_val(s.last())
    }
}

/// `62^k`.
pub open spec fn pow62(k: nat) -> nat
    decreases k,
{
    if k == 0 {
        1
    } else {
        62 * pow62((k - 1) as nat)
    }
}

proof fn lemma_pow62_pos(k: nat)
    ensures
        pow62(k) >= 1,
    decreases k,
{
    if k > 0 {
        lemma_pow62_pos((k - 1) as nat);
    }
}

proof fn lemma_base62_bytes_len_and_range(n: nat, len: nat)
    ensures
        base62_bytes(n, len).len() == len,
        forall|i: int|
            0 <= i < len ==> 48 <= #[trigger] base62_bytes(n, len)[i] < 123,
    decreases len,
{
    if len > 0 {
        lemma_base62_bytes_len_and_range(n / 62, (len - 1) as nat);
    }
}

/// Reading a digit character back gives the digit.
proof fn lemma_digit_char_val(d: int)
    requires
        0 <= d < 62,
    ensures
        base62_char_val(base62_digit(d) as char) == d,
{
}

/// The external form of `n` (to `len` digits) is a valid base-62 numeral and
/// denotes `n` modulo `62^len`.
proof fn lemma_encode_then_value(n: nat, len: nat)
    ensures
        base62_valid(base62_bytes(n, len).map_values(|b: u8| b as char)),
        base62_value(base62_bytes(n, len).map_values(|b: u8| b as char)) == n % pow62(len),
    decreases len,
{
    let chars = base62_bytes(n, len).map_values(|b: u8| b as char);
    if len == 0 {
        assert(chars =~= Seq::<char>::empty());
        lemma_small_mod(0, 1);
    } else {
        lemma_pow62_pos((len - 1) as nat);
        lemma_encode_then_value(n / 62, (len - 1) as nat);
        let inner = base62_bytes(n / 62, (len - 1) as nat).map_values(|b: u8| b as char);
        let d = (n % 62) as int;
        lemma_base62_bytes_len_and_range(n / 62, (len - 1) as nat);
        assert(chars.drop_last() =~= inner);
        assert(chars.last() == base62_digit(d) as char);
        lemma_digit_char_val(d);
        assert(forall|i: int| 0 <= i < chars.len() - 1 ==> chars[i] == inner[i]);
        assert(base62_valid(chars));
        assert(base62_value(chars) == base62_value(inner) * 62 + d);
        lemma_breakdown(n as int, 62, pow62((len - 1) as nat) as int);
        assert(n % (62 * pow62((len - 1) as nat)) == 62 * ((n as int / 62) % pow62(
            (len - 1) as nat,
        ) as int) + n % 62);
    }
}

/// `62^22` exceeds every `u128`, so 22 digits carry any identifier exactly.
proof fn lemma_pow62_22_exceeds_u128()
    ensures
        pow62(22) > u128::MAX,
{
    reveal_with_fuel(pow62, 23);
    assert(pow62(22) == 2707803647802660400290261537185326956544);
}

/// Round trip: the canonical external form of an identifier value is a valid
/// base-62 numeral that denotes the identifier value itself.
pub proof fn lemma_track_id_round_trip(id: u128)
    ensures
        base62_valid(track_id_chars(id)),
        track_id_chars(id).len() == TRACK_ID_LEN,
        base62_value(track_id_chars(id)) == id,
{
    lemma_encode_then_value(id as nat, TRACK_ID_LEN as nat);
    lemma_base62_bytes_len_and_range(id as nat, TRACK_ID_LEN as nat);
    lemma_pow62_22_exceeds_u128();
    lemma_small_mod(id as nat, pow62(TRACK_ID_LEN as nat));
}

/// Relies on `String::from_utf8`: bytes below 128 are valid UTF-8 and decode
/// to exactly the characters with those code points.
#[verifier::external_body]
fn ascii_string(bytes: Vec<u8>) -> (r: String)
    requires
        forall|i: int| 0 <= i < bytes@.len() ==> bytes@[i] < 128,
    ensures
        r@ == bytes@.map_values(|b: u8| b as char),
{
    match String::from_utf8(bytes) {
        Ok(s) => s,
        Err(_) => String::new(),
    }
}

/// The byte of the base-62 digit `d`.
fn base62_digit_byte(d: u8) -> (b: u8)
    requires
        d < 62,
    ensures
        b == base62_digit(d as int),
{
    if d < 10 {
        48 + d
    } else if d < 36 {
        87 + d
    } else {
        29 + d
    }
}

/// Appends the last `len` base-62 digits of `n`, most significant first.
fn push_base62(n: u128, len: usize, out: &mut Vec<u8>)
    ensures
        final(out)@ == old(out)@ + base62_bytes(n as nat, len as nat),
    decreases len,
{
    if len == 0 {
        proof {
            assert(out@ + base62_bytes(n as nat, 0) =~= out@);
        }
    } else {
        push_base62(n / 62, len - 1, out);
        let d = base62_digit_byte((n % 62) as u8);
        out.push(d);
        proof {
            assert(out@ =~= old(out)@ + base62_bytes(n as nat, len as nat));
        }
    }
}

/// The canonical external string form of an identifier value: its 22-digit
/// base-62 numeral.
pub fn to_base62(id: u128) -> (r: String)
    ensures
        r@ == track_id_chars(id),
        r@.len() == TRACK_ID_LEN,
{
    let mut buf: Vec<u8> = Vec::new();
    push_base62(id, TRACK_ID_LEN, &mut buf);
    proof {
        lemma_base62_bytes_len_and_range(id as nat, TRACK_ID_LEN as nat);
        assert(buf@ =~= base62_bytes(id as nat, TRACK_ID_LEN as nat));
    }
    ascii_string(buf)
}

/// When every digit of a numeral is a base-62 digit, its value is not below
/// the value of any prefix.
proof fn lemma_base62_value_prefix(s: Seq<char>, k: int)
    requires
        base62_valid(s),
        0 <= k <= s.len(),
    ensures
        base62_value(s) >= base62_value(s.subrange(0, k)) >= 0,
    decreases s.len() - k,
{
    if k == s.len() {
        assert(s.subrange(0, k) =~= s);
        lemma_base62_value_nonneg(s);
    } else {
        lemma_base62_value_prefix(s, k + 1);
        let p = s.subrange(0, k + 1);
        assert(p.drop_last() =~= s.subrange(0, k));
        lemma_base62_value_nonneg(s.subrange(0, k));
    }
}

proof fn lemma_base62_value_nonneg(s: Seq<char>)
    requires
        base62_valid(s),
    ensures
        base62_value(s) >= 0,
    decreases s.len(),
{
    if s.len() > 0 {
        assert(base62_valid(s.drop_last()));
        lemma_base62_value_nonneg(s.drop_last());
    }
}

/// Parses the 22-character external form back to the identifier value. Returns
/// the value exactly when the input is 22 base-62 digits denoting a number
/// that fits in 128 bits, and nothing otherwise.
pub fn from_base62(s: &str) -> (r: Option<u128>)
    ensures
        match r {
            Some(v) => s@.len() == TRACK_ID_LEN && base62_valid(s@) && v == base62_value(s@),
            None => !(s@.len() == TRACK_ID_LEN && base62_valid(s@) && base62_value(s@)
                <= u128::MAX),
        },
{
    let n = s.unicode_len();
    if n != TRACK_ID_LEN {
        return None;
    }
    let mut acc: u128 = 0;
    let mut i: usize = 0;
    while i < TRACK_ID_LEN
        invariant
            s@.len() == TRACK_ID_LEN,
            i <= TRACK_ID_LEN,
            base62_valid(s@.subrange(0, i as int)),
            acc == base62_value(s@.subrange(0, i as int)),
        decreases TRACK_ID_LEN - i,
    {
        let c = s.get_char(i);
        let u = c as u32;
        let d: u32 = if 48 <= u && u <= 57 {
            u - 48
        } else if 97 <= u && u <= 122 {
            u - 87
        } else if 65 <= u && u <= 90 {
            u - 29
        } else {
            proof {
                assert(base62_char_val(s@[i as int]) < 0);
            }
            return None;
        };
        proof {
            let pre = s@.subrange(0, i as int);
            let cur = s@.subrange(0, i + 1);
            assert(cur.drop_last() =~= pre);
            assert(cur.last() == s@[i as int]);
            assert(base62_char_val(s@[i as int]) == d);
        }
        if acc > (u128::MAX - d as u128) / 62 {
            proof {
                let cur = s@.subrange(0, i + 1);
                assert(base62_value(cur) > u128::MAX);
                if base62_valid(s@) {
                    lemma_base62_value_prefix(s@, i + 1);
                }
            }
            return None;
        }
        acc = acc * 62 + d as u128;
        i = i + 1;
    }
    proof {
        assert(s@.subrange(0, TRACK_ID_LEN as int) =~= s@);
    }
    Some(acc)
}

} // verus!
