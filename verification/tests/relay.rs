use lyrics_relay::relay::{
    start_request, plan_lyrics_request, finish_request, response_status, CatalogOutcome,
    CatalogTrack, LyricsOutcome, LyricsRecord, RelayError,
};
use lyrics_relay::urls::{bearer_header, catalog_track_url, lyrics_search_url, percent_encode};

fn bytes(s: &str) -> Vec<u8> {
    s.as_bytes().to_vec()
}

fn example_track(artists: &[&str]) -> CatalogTrack {
    CatalogTrack {
        name: bytes("Song"),
        artists: artists.iter().map(|a| bytes(a)).collect(),
        album: bytes("Album"),
    }
}

fn example_record() -> LyricsRecord {
    LyricsRecord {
        id: 7,
        track_name: bytes("Song"),
        artist_name: bytes("Band"),
        album_name: bytes("Album"),
        duration_ms: 215_000,
        plain_lyrics: bytes("la la la"),
    }
}

#[test]
fn percent_encode_leaves_unreserved_bytes() {
    let input = bytes("AZaz09-._~");
    assert_eq!(percent_encode(&input), bytes("AZaz09-._~"));
}

#[test]
fn percent_encode_escapes_reserved_and_non_ascii() {
    assert_eq!(percent_encode(&bytes("a b/c")), bytes("a%20b%2Fc"));
    assert_eq!(percent_encode(&bytes("ç")), bytes("%C3%A7"));
    assert_eq!(percent_encode(&bytes("x&y=z?")), bytes("x%26y%3Dz%3F"));
    assert_eq!(percent_encode(&bytes("")), bytes(""));
}

#[test]
fn catalog_url_embeds_encoded_id() {
    let url = catalog_track_url(&bytes("abc 123"));
    assert_eq!(url, bytes("https://api.spotify.com/v1/tracks/abc%20123"));
}

#[test]
fn lyrics_url_has_all_three_parameters_and_limit() {
    let url = lyrics_search_url(&bytes("Song"), &bytes("Band"), &bytes("Album"));
    assert_eq!(
        url,
        bytes(
            "https://lrclib.net/api/search?track_name=Song&artist_name=Band&album_name=Album&limit=5"
        )
    );
}

#[test]
fn bearer_header_prefixes_secret() {
    assert_eq!(bearer_header(&bytes("tok123")), bytes("Bearer tok123"));
}

#[test]
fn start_request_without_secret_fails_before_any_call() {
    let r = start_request(&None, &bytes("track-id"));
    assert!(matches!(r, Err(RelayError::MissingSecret)));
}

#[test]
fn start_request_with_secret_plans_authenticated_lookup() {
    let r = start_request(&Some(bytes("tok")), &bytes("id 1"));
    let req = r.expect("a secret must yield a catalog request");
    assert_eq!(req.url, bytes("https://api.spotify.com/v1/tracks/id%201"));
    assert_eq!(req.bearer, bytes("Bearer tok"));
}

#[test]
fn catalog_example_yields_exact_lyrics_query() {
    let outcome = CatalogOutcome::Track(example_track(&["Band"]));
    let req = plan_lyrics_request(&outcome).expect("one artist suffices");
    assert_eq!(
        req.url,
        bytes(
            "https://lrclib.net/api/search?track_name=Song&artist_name=Band&album_name=Album&limit=5"
        )
    );
}

#[test]
fn lyrics_query_uses_first_artist_only() {
    let outcome = CatalogOutcome::Track(example_track(&["First", "Second"]));
    let req = plan_lyrics_request(&outcome).expect("two artists suffice");
    assert_eq!(
        req.url,
        bytes(
            "https://lrclib.net/api/search?track_name=Song&artist_name=First&album_name=Album&limit=5"
        )
    );
}

#[test]
fn empty_artist_list_stops_the_lookup() {
    let outcome = CatalogOutcome::Track(example_track(&[]));
    let r = plan_lyrics_request(&outcome);
    assert!(matches!(r, Err(RelayError::NoArtists)));
}

#[test]
fn catalog_failures_map_to_their_errors() {
    assert!(matches!(
        plan_lyrics_request(&CatalogOutcome::Unreachable),
        Err(RelayError::UpstreamUnreachable)
    ));
    assert!(matches!(
        plan_lyrics_request(&CatalogOutcome::Rejected(404)),
        Err(RelayError::UpstreamRejected(404))
    ));
    assert!(matches!(
        plan_lyrics_request(&CatalogOutcome::Malformed),
        Err(RelayError::MalformedResponse)
    ));
}

#[test]
fn zero_lyrics_matches_is_a_success() {
    let r = finish_request(LyricsOutcome::Records(Vec::new()));
    let records = r.expect("an empty candidate list is not an error");
    assert_eq!(records.len(), 0);
    assert_eq!(response_status(&Ok(records)), 200);
}

#[test]
fn decoded_lyrics_records_come_back_unchanged() {
    let r = finish_request(LyricsOutcome::Records(vec![example_record()]));
    let records = r.expect("decoded records are a success");
    assert_eq!(records.len(), 1);
    assert_eq!(records[0].id, 7);
    assert_eq!(records[0].track_name, bytes("Song"));
    assert_eq!(records[0].artist_name, bytes("Band"));
    assert_eq!(records[0].album_name, bytes("Album"));
    assert_eq!(records[0].duration_ms, 215_000);
    assert_eq!(records[0].plain_lyrics, bytes("la la la"));
}

#[test]
fn lyrics_failures_map_to_their_errors() {
    assert!(matches!(
        finish_request(LyricsOutcome::Unreachable),
        Err(RelayError::UpstreamUnreachable)
    ));
    assert!(matches!(
        finish_request(LyricsOutcome::Rejected(500)),
        Err(RelayError::UpstreamRejected(500))
    ));
    assert!(matches!(
        finish_request(LyricsOutcome::Malformed),
        Err(RelayError::MalformedResponse)
    ));
}

#[test]
fn every_failure_has_an_error_status() {
    assert_eq!(response_status(&Err(RelayError::MissingSecret)), 500);
    assert_eq!(response_status(&Err(RelayError::UpstreamUnreachable)), 503);
    assert_eq!(response_status(&Err(RelayError::UpstreamRejected(404))), 502);
    assert_eq!(response_status(&Err(RelayError::MalformedResponse)), 502);
    assert_eq!(response_status(&Err(RelayError::NoArtists)), 502);
}

#[test]
fn failures_describe_themselves() {
    assert_eq!(
        RelayError::MissingSecret.describe(),
        "the catalog access token is not configured"
    );
    assert_eq!(
        RelayError::NoArtists.describe(),
        "the catalog lists no artist for this track"
    );
}
