//! Building the lyrics lookup request: the query string assembled from the
//! track's metadata, with each component percent-encoded. The network call
//! itself lives outside the library.

use vstd::prelude::*;
use vstd::string::{StrSliceExecFns, StringExecFns, StringSliceAdditionalSpecFns};

verus! {

/// The error body a failed lyrics lookup carries.
pub struct LyricsErrorResponse {
    pub status_code: u16,
    pub message: String,
    pub name: String,
}

/// A byte that percent-encoding passes through unchanged: ASCII alphanumerics
/// and `-`, `.`, `_`, `~`.
pub open spec fn url_safe_byte(b: u8) -> bool {
    (48 <= b <= 57) || (65 <= b <= 90) || (97 <= b <= 122) || b == 45 || b == 46 || b == 95 || b
        == 126
}

/// The uppercase hex character for one nibble.
pub open spec fn upper_hex_digit(d: u8) -> char
    recommends
        d < 16,
{
    if d < 10 {
        (48 + d) as char
    } else {
        (55 + d) as char
    }
}

/// Percent-encoding of a byte sequence: safe bytes stand for themselves,
/// every other byte becomes `%` and two uppercase hex digits.
pub open spec fn percent_encoded(bs: Seq<u8>) -> Seq<char>
    decreases bs.len(),
{
    if bs.len() == 0 {
        Seq::empty()
    } else {
        let head: Seq<char> = if url_safe_byte(bs[0]) {
            seq![bs[0] as char]
        } else {
            seq!['%', upper_hex_digit(bs[0] / 16), upper_hex_digit(bs[0] % 16)]
        };
        head + percent_encoded(bs.drop_first())
    }
}

/// Relies on `urlencoding::encode`: percent-encodes every byte of the UTF-8
/// form except ASCII alphanumerics and `-`, `.`, `_`, `~`, writing uppercase
/// hex digits.
#[verifier::external_body]
fn url_encode(s: &str) -> (r: String)
    ensures
        r@ == percent_encoded(s.spec_bytes()),
{
    urlencoding::encode(s).into_owned()
}

/// Relies on `str::replace` with a single-character pattern: every space
/// becomes a plus, every other character is kept in place.
#[verifier::external_body]
fn space_to_plus(s: &str) -> (r: String)
    ensures
        r@ == s@.map_values(|c: char| if c == ' ' { '+' } else { c }),
{
    s.replace(" ", "+")
}

/// The full lyrics request address for one track: the fixed endpoint, the
/// three percent-encoded name components and the duration, with any remaining
/// spaces turned into plus signs.
pub open spec fn lyrics_request_url(
    artist: Seq<u8>,
    track: Seq<u8>,
    album: Seq<u8>,
    duration: Seq<char>,
) -> Seq<char> {
    ("https://lrclib.net/api/get?artist_name="@ + percent_encoded(artist) + "&track_name="@
        + percent_encoded(track) + "&album_name="@ + percent_encoded(album) + "&duration="@
        + duration).map_values(|c: char| if c == ' ' { '+' } else { c })
}

/// Builds the lyrics request address from the track's metadata.
pub fn build_lyrics_request_url(artist: &str, track: &str, album: &str, duration: &str) -> (r:
    String)
    ensures
        r@ == lyrics_request_url(
            artist.spec_bytes(),
            track.spec_bytes(),
            album.spec_bytes(),
            duration@,
        ),
{
    let mut url = String::from_str("https://lrclib.net/api/get?artist_name=");
    let artist_enc = url_encode(artist);
    url.append(artist_enc.as_str());
    url.append("&track_name=");
    let track_enc = url_encode(track);
    url.append(track_enc.as_str());
    url.append("&album_name=");
    let album_enc = url_encode(album);
    url.append(album_enc.as_str());
    url.append("&duration=");
    url.append(duration);
    proof {
        assert(url@ =~= "https://lrclib.net/api/get?artist_name="@ + percent_encoded(
            artist.spec_bytes(),
        ) + "&track_name="@ + percent_encoded(track.spec_bytes()) + "&album_name="@
            + percent_encoded(album.spec_bytes()) + "&duration="@ + duration@);
    }
    space_to_plus(url.as_str())
}

} // verus!
