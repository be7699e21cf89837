//! Percent-encoding and URL construction for the two upstream requests.
//!
//! Track, artist and album names are carried as UTF-8 bytes; every byte that
//! is not an unreserved URI character is written as `%XX` with upper-case hex
//! digits, so untrusted names can be spliced into a URL path segment or query
//! parameter without changing the URL's structure.

use vstd::prelude::*;
use vstd::string::StrSliceExecFns;

verus! {

/// A byte that percent-encoding leaves unchanged: an ASCII letter, an ASCII
/// digit, `-`, `.`, `_` or `~` (RFC 3986's unreserved set).
pub open spec fn is_unreserved(b: u8) -> bool {
    (0x41 <= b <= 0x5a)  // 'A' ..= 'Z'
    || (0x61 <= b <= 0x7a)  // 'a' ..= 'z'
    || (0x30 <= b <= 0x39)  // '0' ..= '9'
    || b == 0x2d  // '-'
    || b == 0x2e  // '.'
    || b == 0x5f  // '_'
    || b == 0x7e  // '~'
}

/// The upper-case hex digit for a value below sixteen.
pub open spec fn hex_upper(n: int) -> u8
    recommends
        0 <= n < 16,
{
    if n < 10 {
        (0x30 + n) as u8  // '0' ..= '9'
    } else {
        (0x37 + n) as u8  // 'A' ..= 'F'
    }
}

/// How one byte appears in a percent-encoded string: itself when unreserved,
/// otherwise `%` followed by its two hex digits.
pub open spec fn encoded_byte(b: u8) -> Seq<u8> {
    if is_unreserved(b) {
        seq![b]
    } else {
        seq![0x25u8, hex_upper(b as int / 16), hex_upper(b as int % 16)]
    }
}

/// The percent-encoding of a byte string: each byte's encoding, in order.
pub open spec fn percent_encoded(s: Seq<u8>) -> Seq<u8>
    decreases s.len(),
{
    if s.len() == 0 {
        Seq::empty()
    } else {
        percent_encoded(s.drop_last()) + encoded_byte(s.last())
    }
}

fn hex_upper_digit(n: u8) -> (r: u8)
    requires
        n < 16,
    ensures
        r == hex_upper(n as int),
{
    if n < 10 {
        0x30 + n
    } else {
        0x37 + n
    }
}

/// Percent-encode a byte string.
pub fn percent_encode(s: &Vec<u8>) -> (r: Vec<u8>)
    ensures
        r@ == percent_encoded(s@),
{
    let mut r: Vec<u8> = Vec::new();
    let mut i: usize = 0;
    while i < s.len()
        invariant
            i <= s.len(),
            r@ == percent_encoded(s@.subrange(0, i as int)),
        decreases s.len() - i,
    {
        let b = s[i];
        if (0x41 <= b && b <= 0x5a) || (0x61 <= b && b <= 0x7a) || (0x30 <= b && b <= 0x39)
            || b == 0x2d || b == 0x2e || b == 0x5f || b == 0x7e {
            r.push(b);
        } else {
            r.push(0x25);
            r.push(hex_upper_digit(b / 16));
            r.push(hex_upper_digit(b % 16));
        }
        proof {
            let prefix = s@.subrange(0, i as int);
            let grown = s@.subrange(0, i as int + 1);
            assert(grown.drop_last() =~= prefix);
            assert(r@ =~= percent_encoded(grown));
        }
        i = i + 1;
    }
    proof {
        assert(s@.subrange(0, s@.len() as int) =~= s@);
    }
    r
}

/// The bytes of an ASCII character sequence, one byte per character.
pub open spec fn ascii_bytes(s: Seq<char>) -> Seq<u8> {
    Seq::new(s.len(), |i: int| s[i] as u8)
}

/// The catalog provider's track-by-id endpoint; the encoded id follows it.
pub open spec fn catalog_base() -> Seq<char> {
    "https://api.spotify.com/v1/tracks/"@
}

/// The lyrics provider's search endpoint, up to and including the track-name
/// parameter marker.
pub open spec fn lyrics_base() -> Seq<char> {
    "https://lrclib.net/api/search?track_name="@
}

/// The marker that introduces the artist-name query parameter.
pub open spec fn artist_param() -> Seq<char> {
    "&artist_name="@
}

/// The marker that introduces the album-name query parameter.
pub open spec fn album_param() -> Seq<char> {
    "&album_name="@
}

/// The fixed result limit appended to every lyrics search.
pub open spec fn limit_param() -> Seq<char> {
    "&limit=5"@
}

/// The prefix of the catalog provider's authorization header value.
pub open spec fn bearer_prefix() -> Seq<char> {
    "Bearer "@
}

/// The bytes of an ASCII string slice.
fn ascii_lit(s: &str) -> (r: Vec<u8>)
    requires
        s.is_ascii(),
    ensures
        r@ == ascii_bytes(s@),
{
    broadcast use vstd::string::is_ascii_spec_bytes;

    let r = s.as_bytes_vec();
    proof {
        assert(r@ =~= ascii_bytes(s@));
    }
    r
}

/// Append a copy of `src` to `dst`.
fn push_all(dst: &mut Vec<u8>, src: &Vec<u8>)
    ensures
        final(dst)@ == old(dst)@ + src@,
{
    let ghost dst0: Seq<u8> = dst@;
    let mut i: usize = 0;
    while i < src.len()
        invariant
            i <= src.len(),
            dst@ == dst0 + src@.subrange(0, i as int),
        decreases src.len() - i,
    {
        dst.push(src[i]);
        proof {
            assert(dst0 + src@.subrange(0, i as int + 1) =~= (dst0 + src@.subrange(
                0,
                i as int,
            )).push(src@[i as int]));
        }
        i = i + 1;
    }
    proof {
        assert(src@.subrange(0, src.len() as int) =~= src@);
    }
}

/// The URL of the catalog provider's track lookup for the given identifier:
/// the fixed endpoint with the percent-encoded identifier as the final path
/// segment.
pub open spec fn catalog_track_url_spec(id: Seq<u8>) -> Seq<u8> {
    ascii_bytes(catalog_base()) + percent_encoded(id)
}

/// Build the catalog lookup URL for a track identifier.
pub fn catalog_track_url(id: &Vec<u8>) -> (r: Vec<u8>)
    ensures
        r@ == catalog_track_url_spec(id@),
{
    proof {
        reveal_strlit("https://api.spotify.com/v1/tracks/");
    }
    let mut r = ascii_lit("https://api.spotify.com/v1/tracks/");
    let enc = percent_encode(id);
    push_all(&mut r, &enc);
    r
}

/// The URL of the lyrics provider's search for the given track, artist and
/// album names: each name percent-encoded into its query parameter, with a
/// fixed limit of five results.
pub open spec fn lyrics_search_url_spec(track: Seq<u8>, artist: Seq<u8>, album: Seq<u8>) -> Seq<
    u8,
> {
    ascii_bytes(lyrics_base()) + percent_encoded(track) + ascii_bytes(artist_param())
        + percent_encoded(artist) + ascii_bytes(album_param()) + percent_encoded(album)
        + ascii_bytes(limit_param())
}

/// Build the lyrics search URL for the given track, artist and album names.
pub fn lyrics_search_url(track: &Vec<u8>, artist: &Vec<u8>, album: &Vec<u8>) -> (r: Vec<u8>)
    ensures
        r@ == lyrics_search_url_spec(track@, artist@, album@),
{
    proof {
        reveal_strlit("https://lrclib.net/api/search?track_name=");
        reveal_strlit("&artist_name=");
        reveal_strlit("&album_name=");
        reveal_strlit("&limit=5");
    }
    let mut r = ascii_lit("https://lrclib.net/api/search?track_name=");
    let enc_track = percent_encode(track);
    push_all(&mut r, &enc_track);
    let sep_artist = ascii_lit("&artist_name=");
    push_all(&mut r, &sep_artist);
    let enc_artist = percent_encode(artist);
    push_all(&mut r, &enc_artist);
    let sep_album = ascii_lit("&album_name=");
    push_all(&mut r, &sep_album);
    let enc_album = percent_encode(album);
    push_all(&mut r, &enc_album);
    let limit = ascii_lit("&limit=5");
    push_all(&mut r, &limit);
    r
}

/// The lyrics search URL carries exactly the artist name it was built from:
/// between the artist-parameter marker and the album-parameter marker stands
/// the percent-encoding of that name, so the provider is always asked for the
/// artist the catalog named — for a relayed lookup, the catalog's first
/// artist.
pub proof fn lemma_lyrics_url_embeds_artist(track: Seq<u8>, artist: Seq<u8>, album: Seq<u8>)
    ensures
        ({
            let url = lyrics_search_url_spec(track, artist, album);
            let before = ascii_bytes(lyrics_base()) + percent_encoded(track) + ascii_bytes(
                artist_param(),
            );
            url.subrange(
                before.len() as int,
                before.len() + percent_encoded(artist).len() as int,
            ) == percent_encoded(artist)
        }),
{
    let url = lyrics_search_url_spec(track, artist, album);
    let before = ascii_bytes(lyrics_base()) + percent_encoded(track) + ascii_bytes(artist_param());
    assert(url.subrange(
        before.len() as int,
        before.len() + percent_encoded(artist).len() as int,
    ) =~= percent_encoded(artist));
}

/// The catalog provider's authorization header value: the bearer prefix
/// followed by the secret's bytes, unencoded.
pub open spec fn bearer_header_spec(secret: Seq<u8>) -> Seq<u8> {
    ascii_bytes(bearer_prefix()) + secret
}

/// Build the authorization header value for the given bearer token.
pub fn bearer_header(secret: &Vec<u8>) -> (r: Vec<u8>)
    ensures
        r@ == bearer_header_spec(secret@),
{
    proof {
        reveal_strlit("Bearer ");
    }
    let mut r = ascii_lit("Bearer ");
    push_all(&mut r, secret);
    r
}

} // verus!
