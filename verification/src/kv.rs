//! The flat `key=value` persisted store: newline-separated lines, each split
//! at its first `=`. Reading finds the first line carrying the key; writing
//! replaces that line's value, or appends a new line when the key is absent.
//! The surrounding file input and output lives outside the library; these
//! functions work on the bytes.

use vstd::prelude::*;

verus! {

/// The line separator.
pub const NEWLINE: u8 = 10;

/// The key-value separator.
pub const EQUALS: u8 = 61;

/// The index of the first occurrence of `b` in `s`, or the length of `s`.
pub open spec fn find_byte(s: Seq<u8>, b: u8) -> nat
    decreases s.len(),
{
    if s.len() == 0 {
        0
    } else if s[0] == b {
        0
    } else {
        (1 + find_byte(s.drop_first(), b)) as nat
    }
}

/// The index `find_byte` names is the first one carrying `b`.
pub proof fn lemma_find_byte_is(s: Seq<u8>, b: u8, k: int)
    requires
        0 <= k <= s.len(),
        forall|i: int| 0 <= i < k ==> s[i] != b,
        k < s.len() ==> s[k] == b,
    ensures
        find_byte(s, b) == k,
    decreases s.len(),
{
    if s.len() > 0 {
        if k == 0 {
        } else {
            assert(s[0] != b);
            assert(forall|i: int| 0 <= i < k - 1 ==> s.drop_first()[i] == s[i + 1] && s[i + 1]
                != b);
            lemma_find_byte_is(s.drop_first(), b, k - 1);
        }
    }
}

pub proof fn lemma_find_byte_bounds(s: Seq<u8>, b: u8)
    ensures
        find_byte(s, b) <= s.len(),
        forall|i: int| 0 <= i < find_byte(s, b) ==> s[i] != b,
        find_byte(s, b) < s.len() ==> s[find_byte(s, b) as int] == b,
    decreases s.len(),
{
    if s.len() > 0 && s[0] != b {
        lemma_find_byte_bounds(s.drop_first(), b);
        assert forall|i: int| 1 <= i < find_byte(s, b) implies s[i] != b by {
            assert(s.drop_first()[i - 1] == s[i]);
            assert(i - 1 < find_byte(s.drop_first(), b));
        }
    }
}

/// Whether a line both has a separator and names this key before it.
pub open spec fn line_matches(line: Seq<u8>, key: Seq<u8>) -> bool {
    find_byte(line, EQUALS) < line.len() && line.subrange(0, find_byte(line, EQUALS) as int)
        == key
}

/// The value a matching line carries: everything after the first separator.
pub open spec fn line_value(line: Seq<u8>) -> Seq<u8> {
    line.subrange(find_byte(line, EQUALS) as int + 1, line.len() as int)
}

/// The value stored under `key`: the first line naming it, or nothing.
pub open spec fn kv_lookup(data: Seq<u8>, key: Seq<u8>) -> Option<Seq<u8>>
    decreases data.len(),
{
    let e = find_byte(data, NEWLINE);
    if e < data.len() {
        let line = data.subrange(0, e as int);
        if line_matches(line, key) {
            Some(line_value(line))
        } else {
            kv_lookup(data.subrange(e as int + 1, data.len() as int), key)
        }
    } else {
        if line_matches(data, key) {
            Some(line_value(data))
        } else {
            None
        }
    }
}

/// One stored line for a pair, newline-terminated.
pub open spec fn kv_line(key: Seq<u8>, value: Seq<u8>) -> Seq<u8> {
    key + seq![EQUALS] + value + seq![NEWLINE]
}

/// The store with `value` bound to `key`: the first line naming the key is
/// replaced, or a new line appended when no line names it. Every line of the
/// result is newline-terminated.
pub open spec fn kv_update(data: Seq<u8>, key: Seq<u8>, value: Seq<u8>) -> Seq<u8>
    decreases data.len(),
{
    if data.len() == 0 {
        kv_line(key, value)
    } else {
        let e = find_byte(data, NEWLINE);
        if e < data.len() {
            let line = data.subrange(0, e as int);
            let rest = data.subrange(e as int + 1, data.len() as int);
            if line_matches(line, key) {
                kv_line(key, value) + rest
            } else {
                line + seq![NEWLINE] + kv_update(rest, key, value)
            }
        } else {
            if line_matches(data, key) {
                kv_line(key, value)
            } else {
                data + seq![NEWLINE] + kv_line(key, value)
            }
        }
    }
}

/// A key is storable when it holds neither a separator nor a line break; a
/// value only needs to stay on one line.
pub open spec fn storable(key: Seq<u8>, value: Seq<u8>) -> bool {
    &&& forall|i: int| 0 <= i < key.len() ==> key[i] != EQUALS && key[i] != NEWLINE
    &&& forall|i: int| 0 <= i < value.len() ==> value[i] != NEWLINE
}

/// A freshly written line names its key and carries its value.
proof fn lemma_kv_line_matches(key: Seq<u8>, value: Seq<u8>)
    requires
        storable(key, value),
    ensures
        find_byte(kv_line(key, value), NEWLINE) == key.len() + 1 + value.len(),
        line_matches(kv_line(key, value).subrange(0, key.len() as int + 1 + value.len() as int), key),
        line_value(kv_line(key, value).subrange(0, key.len() as int + 1 + value.len() as int)) == value,
{
    let l = kv_line(key, value);
    let n = key.len() + 1 + value.len();
    assert(l.len() == n + 1);
    assert(l[n as int] == NEWLINE);
    assert(forall|i: int| 0 <= i < key.len() ==> l[i] == key[i]);
    assert(l[key.len() as int] == EQUALS);
    assert(forall|i: int| 0 <= i < value.len() ==> l[key.len() + 1 + i] == value[i]);
    lemma_find_byte_is(l, NEWLINE, n as int);
    let line = l.subrange(0, n as int);
    assert(forall|i: int| 0 <= i < key.len() ==> line[i] != EQUALS);
    assert(line[key.len() as int] == EQUALS);
    lemma_find_byte_is(line, EQUALS, key.len() as int);
    assert(line.subrange(0, key.len() as int) =~= key);
    assert(line_value(line) =~= value);
}

/// Reading back a just-written key yields the just-written value.
pub proof fn lemma_kv_round_trip(data: Seq<u8>, key: Seq<u8>, value: Seq<u8>)
    requires
        storable(key, value),
    ensures
        kv_lookup(kv_update(data, key, value), key) == Some(value),
    decreases data.len(),
{
    lemma_kv_line_matches(key, value);
    let l = kv_line(key, value);
    let n = key.len() + 1 + value.len();
    if data.len() == 0 {
        assert(l.subrange(n as int + 1, l.len() as int) =~= Seq::<u8>::empty());
    } else {
        let e = find_byte(data, NEWLINE);
        lemma_find_byte_bounds(data, NEWLINE);
        if e < data.len() {
            let line = data.subrange(0, e as int);
            let rest = data.subrange(e as int + 1, data.len() as int);
            if line_matches(line, key) {
                let out = l + rest;
                assert(forall|i: int| 0 <= i < n ==> out[i] == l[i] && out[i] != NEWLINE);
                assert(out[n as int] == NEWLINE);
                lemma_find_byte_is(out, NEWLINE, n as int);
                assert(out.subrange(0, n as int) =~= l.subrange(0, n as int));
            } else {
                lemma_kv_round_trip(rest, key, value);
                let out = line + seq![NEWLINE] + kv_update(rest, key, value);
                assert(forall|i: int| 0 <= i < e ==> out[i] == line[i] && out[i] != NEWLINE);
                assert(out[e as int] == NEWLINE);
                lemma_find_byte_is(out, NEWLINE, e as int);
                assert(out.subrange(0, e as int) =~= line);
                assert(out.subrange(e as int + 1, out.len() as int) =~= kv_update(rest, key, value));
            }
        } else {
            if line_matches(data, key) {
                assert(l.subrange(n as int + 1, l.len() as int) =~= Seq::<u8>::empty());
            } else {
                let out = data + seq![NEWLINE] + l;
                assert(forall|i: int| 0 <= i < data.len() ==> out[i] == data[i] && out[i]
                    != NEWLINE);
                assert(out[data.len() as int] == NEWLINE);
                lemma_find_byte_is(out, NEWLINE, data.len() as int);
                assert(out.subrange(0, data.len() as int) =~= data);
                assert(out.subrange(data.len() as int + 1, out.len() as int) =~= l);
                assert(kv_lookup(l, key) == Some(value)) by {
                    assert(l.subrange(n as int + 1, l.len() as int) =~= Seq::<u8>::empty());
                }
            }
        }
    }
}

/// Finds the first occurrence of `b` at or after `from`, up to `to`.
fn find_byte_in(data: &Vec<u8>, from: usize, to: usize, b: u8) -> (idx: usize)
    requires
        from <= to <= data@.len(),
    ensures
        from <= idx <= to,
        forall|j: int| from <= j < idx ==> data@[j] != b,
        idx < to ==> data@[idx as int] == b,
{
    let mut i = from;
    while i < to
        invariant
            from <= i <= to <= data@.len(),
            forall|j: int| from <= j < i ==> data@[j] != b,
        decreases to - i,
    {
        if data[i] == b {
            return i;
        }
        i = i + 1;
    }
    i
}

/// Copies `data[from .. to]` into a fresh vector.
fn subrange_vec(data: &Vec<u8>, from: usize, to: usize) -> (r: Vec<u8>)
    requires
        from <= to <= data@.len(),
    ensures
        r@ == data@.subrange(from as int, to as int),
{
    let mut r: Vec<u8> = Vec::new();
    let mut i = from;
    while i < to
        invariant
            from <= i <= to <= data@.len(),
            r@ == data@.subrange(from as int, i as int),
        decreases to - i,
    {
        let x = data[i];
        r.push(x);
        proof {
            assert(r@ =~= data@.subrange(from as int, i + 1));
        }
        i = i + 1;
    }
    r
}

/// Whether `data[from .. to]` equals `key`.
fn bytes_eq_range(data: &Vec<u8>, from: usize, to: usize, key: &Vec<u8>) -> (r: bool)
    requires
        from <= to <= data@.len(),
    ensures
        r == (data@.subrange(from as int, to as int) == key@),
{
    if to - from != key.len() {
        proof {
            assert(data@.subrange(from as int, to as int).len() != key@.len());
        }
        return false;
    }
    let mut i: usize = 0;
    while i < key.len()
        invariant
            from + key@.len() == to,
            to <= data@.len(),
            i <= key@.len(),
            forall|j: int| 0 <= j < i ==> data@[from + j] == key@[j],
        decreases key@.len() - i,
    {
        if data[from + i] != key[i] {
            proof {
                assert(data@.subrange(from as int, to as int)[i as int] != key@[i as int]);
            }
            return false;
        }
        i = i + 1;
    }
    proof {
        assert(data@.subrange(from as int, to as int) =~= key@);
    }
    true
}

/// A fresh line holds nothing under any other key.
proof fn lemma_kv_line_other(key: Seq<u8>, value: Seq<u8>, other: Seq<u8>)
    requires
        storable(key, value),
        other != key,
    ensures
        kv_lookup(kv_line(key, value), other) is None,
{
    lemma_kv_line_matches(key, value);
    let l = kv_line(key, value);
    let n = key.len() + 1 + value.len();
    let line = l.subrange(0, n as int);
    assert(!line_matches(line, other));
    assert(l.subrange(n as int + 1, l.len() as int) =~= Seq::<u8>::empty());
    assert(kv_lookup(Seq::<u8>::empty(), other) is None) by {
        assert(find_byte(Seq::<u8>::empty(), NEWLINE) == 0);
        assert(!line_matches(Seq::<u8>::empty(), other));
    }
}

/// Binding one key never disturbs another: after an update, every other key
/// reads as it did before.
pub proof fn lemma_kv_update_preserves_other_keys(
    data: Seq<u8>,
    key: Seq<u8>,
    value: Seq<u8>,
    other: Seq<u8>,
)
    requires
        storable(key, value),
        other != key,
    ensures
        kv_lookup(kv_update(data, key, value), other) == kv_lookup(data, other),
    decreases data.len(),
{
    lemma_kv_line_matches(key, value);
    lemma_kv_line_other(key, value, other);
    let l = kv_line(key, value);
    let n = key.len() + 1 + value.len();
    if data.len() == 0 {
        assert(find_byte(data, NEWLINE) == 0);
        assert(!line_matches(data, other));
    } else {
        let e = find_byte(data, NEWLINE);
        lemma_find_byte_bounds(data, NEWLINE);
        if e < data.len() {
            let line = data.subrange(0, e as int);
            let rest = data.subrange(e as int + 1, data.len() as int);
            if line_matches(line, key) {
                // The replaced line still does not name `other`; the rest is
                // untouched on both sides.
                let out = l + rest;
                assert(forall|i: int| 0 <= i < n ==> out[i] == l[i] && out[i] != NEWLINE);
                assert(out[n as int] == NEWLINE);
                lemma_find_byte_is(out, NEWLINE, n as int);
                let out_line = out.subrange(0, n as int);
                assert(out_line =~= l.subrange(0, n as int));
                assert(!line_matches(out_line, other));
                assert(out.subrange(n as int + 1, out.len() as int) =~= rest);
                assert(line.subrange(0, find_byte(line, EQUALS) as int) == key);
                assert(!line_matches(line, other));
            } else {
                lemma_kv_update_preserves_other_keys(rest, key, value, other);
                let out = line + seq![NEWLINE] + kv_update(rest, key, value);
                assert(forall|i: int| 0 <= i < e ==> out[i] == line[i] && out[i] != NEWLINE);
                assert(out[e as int] == NEWLINE);
                lemma_find_byte_is(out, NEWLINE, e as int);
                assert(out.subrange(0, e as int) =~= line);
                assert(out.subrange(e as int + 1, out.len() as int) =~= kv_update(
                    rest,
                    key,
                    value,
                ));
            }
        } else {
            if line_matches(data, key) {
                assert(data.subrange(0, find_byte(data, EQUALS) as int) == key);
                assert(!line_matches(data, other));
            } else {
                let out = data + seq![NEWLINE] + l;
                assert(forall|i: int| 0 <= i < data.len() ==> out[i] == data[i] && out[i]
                    != NEWLINE);
                assert(out[data.len() as int] == NEWLINE);
                lemma_find_byte_is(out, NEWLINE, data.len() as int);
                assert(out.subrange(0, data.len() as int) =~= data);
                assert(out.subrange(data.len() as int + 1, out.len() as int) =~= l);
            }
        }
    }
}

/// Appends `data[from .. to]` to `out`.
fn push_range(out: &mut Vec<u8>, data: &Vec<u8>, from: usize, to: usize)
    requires
        from <= to <= data@.len(),
    ensures
        final(out)@ == old(out)@ + data@.subrange(from as int, to as int),
{
    proof {
        assert(out@ =~= out@ + data@.subrange(from as int, from as int));
    }
    let mut i = from;
    while i < to
        invariant
            from <= i <= to <= data@.len(),
            out@ == old(out)@ + data@.subrange(from as int, i as int),
        decreases to - i,
    {
        let x = data[i];
        out.push(x);
        proof {
            assert(out@ =~= old(out)@ + data@.subrange(from as int, i + 1));
        }
        i = i + 1;
    }
}

/// Appends the stored line for a pair to `out`.
fn push_line(out: &mut Vec<u8>, key: &Vec<u8>, value: &Vec<u8>)
    ensures
        final(out)@ == old(out)@ + kv_line(key@, value@),
{
    push_range(out, key, 0, key.len());
    out.push(EQUALS);
    push_range(out, value, 0, value.len());
    out.push(NEWLINE);
    proof {
        assert(key@.subrange(0, key@.len() as int) =~= key@);
        assert(value@.subrange(0, value@.len() as int) =~= value@);
        assert(out@ =~= old(out)@ + kv_line(key@, value@));
    }
}

/// The store with `value` bound to `key`: exactly [`kv_update`] of the raw
/// bytes. The first line naming the key gets the new value; when none does, a
/// fresh line is appended (terminating an unterminated last line first).
pub fn write_config_value(data: &Vec<u8>, key: &Vec<u8>, value: &Vec<u8>) -> (r: Vec<u8>)
    ensures
        r@ == kv_update(data@, key@, value@),
{
    let mut out: Vec<u8> = Vec::new();
    proof {
        assert(data@.subrange(0, data@.len() as int) =~= data@);
        assert(out@ + kv_update(data@, key@, value@) =~= kv_update(data@, key@, value@));
    }
    let mut start: usize = 0;
    loop
        invariant
            start <= data@.len(),
            kv_update(data@, key@, value@) == out@ + kv_update(
                data@.subrange(start as int, data@.len() as int),
                key@,
                value@,
            ),
        decreases data@.len() - start,
    {
        let ghost tail = data@.subrange(start as int, data@.len() as int);
        if start == data.len() {
            proof {
                assert(tail.len() == 0);
            }
            push_line(&mut out, key, value);
            return out;
        }
        let e = find_byte_in(data, start, data.len(), NEWLINE);
        proof {
            assert(forall|j: int|
                0 <= j < e - start ==> tail[j] == data@[start + j] && tail[j] != NEWLINE);
            lemma_find_byte_is(tail, NEWLINE, e - start);
        }
        let sep = find_byte_in(data, start, e, EQUALS);
        let ghost line = if e < data.len() {
            tail.subrange(0, e - start)
        } else {
            tail
        };
        proof {
            assert(line =~= data@.subrange(start as int, e as int));
            assert(forall|j: int|
                0 <= j < sep - start ==> line[j] == data@[start + j] && line[j] != EQUALS);
            lemma_find_byte_is(line, EQUALS, sep - start);
        }
        let mut matched = false;
        if sep < e {
            if bytes_eq_range(data, start, sep, key) {
                matched = true;
                proof {
                    assert(line.subrange(0, sep - start) =~= data@.subrange(
                        start as int,
                        sep as int,
                    ));
                    assert(line_matches(line, key@));
                }
            } else {
                proof {
                    assert(line.subrange(0, sep - start) =~= data@.subrange(
                        start as int,
                        sep as int,
                    ));
                    assert(!line_matches(line, key@));
                }
            }
        } else {
            proof {
                assert(!line_matches(line, key@));
            }
        }
        if matched {
            push_line(&mut out, key, value);
            if e < data.len() {
                push_range(&mut out, data, e + 1, data.len());
                proof {
                    assert(tail.subrange(e - start + 1, tail.len() as int) =~= data@.subrange(
                        e as int + 1,
                        data@.len() as int,
                    ));
                    assert(out@ =~= kv_update(data@, key@, value@));
                }
            } else {
                proof {
                    assert(out@ =~= kv_update(data@, key@, value@));
                }
            }
            return out;
        }
        if e == data.len() {
            push_range(&mut out, data, start, e);
            out.push(NEWLINE);
            push_line(&mut out, key, value);
            proof {
                assert(out@ =~= kv_update(data@, key@, value@));
            }
            return out;
        }
        push_range(&mut out, data, start, e + 1);
        proof {
            assert(kv_update(tail, key@, value@) == line + seq![NEWLINE] + kv_update(
                tail.subrange(e - start + 1, tail.len() as int),
                key@,
                value@,
            ));
            assert(tail.subrange(e - start + 1, tail.len() as int) =~= data@.subrange(
                e as int + 1,
                data@.len() as int,
            ));
            assert(data@.subrange(start as int, e as int + 1) =~= line + seq![NEWLINE]);
        }
        start = e + 1;
    }
}

/// The value stored under `key` in the raw bytes of the store, if any line
/// names it: exactly [`kv_lookup`].
pub fn read_config_value(data: &Vec<u8>, key: &Vec<u8>) -> (r: Option<Vec<u8>>)
    ensures
        match r {
            Some(v) => kv_lookup(data@, key@) == Some(v@),
            None => kv_lookup(data@, key@) is None,
        },
{
    proof {
        assert(data@.subrange(0, data@.len() as int) =~= data@);
    }
    let mut start: usize = 0;
    loop
        invariant
            start <= data@.len(),
            kv_lookup(data@, key@) == kv_lookup(
                data@.subrange(start as int, data@.len() as int),
                key@,
            ),
        decreases data@.len() - start,
    {
        let ghost tail = data@.subrange(start as int, data@.len() as int);
        let e = find_byte_in(data, start, data.len(), NEWLINE);
        proof {
            assert(forall|j: int|
                0 <= j < e - start ==> tail[j] == data@[start + j] && tail[j] != NEWLINE);
            lemma_find_byte_is(tail, NEWLINE, e - start);
        }
        let sep = find_byte_in(data, start, e, EQUALS);
        let ghost line = if e < data.len() {
            tail.subrange(0, e - start)
        } else {
            tail
        };
        proof {
            assert(line =~= data@.subrange(start as int, e as int));
            assert(forall|j: int|
                0 <= j < sep - start ==> line[j] == data@[start + j] && line[j] != EQUALS);
            lemma_find_byte_is(line, EQUALS, sep - start);
        }
        if sep < e {
            if bytes_eq_range(data, start, sep, key) {
                proof {
                    assert(line.subrange(0, sep - start) =~= data@.subrange(
                        start as int,
                        sep as int,
                    ));
                    assert(line_matches(line, key@));
                }
                let v = subrange_vec(data, sep + 1, e);
                proof {
                    assert(line_value(line) =~= data@.subrange(sep + 1, e as int));
                }
                return Some(v);
            }
        }
        proof {
            if sep < e {
                assert(line.subrange(0, sep - start) =~= data@.subrange(start as int, sep as int));
                assert(!line_matches(line, key@));
            } else {
                assert(!line_matches(line, key@));
            }
        }
        if e == data.len() {
            return None;
        }
        proof {
            assert(kv_lookup(tail, key@) == kv_lookup(
                tail.subrange(e - start + 1, tail.len() as int),
                key@,
            ));
            assert(tail.subrange(e - start + 1, tail.len() as int) =~= data@.subrange(
                e + 1,
                data@.len() as int,
            ));
        }
        start = e + 1;
    }
}

} // verus!
