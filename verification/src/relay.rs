//! The relay's request-scoped data model and the handler's decision steps.
//!
//! A relayed lookup proceeds in two fixed stages: one authenticated catalog
//! request resolving the track identifier to track, artist and album names,
//! then one lyrics search parameterized by those names. Each stage is planned
//! by a function here from plain values; the surrounding process performs the
//! HTTP call it describes and hands the outcome back. A lyrics request can
//! only be obtained from a catalog outcome, so the catalog call always comes
//! first, and each stage happens once per lookup.

use vstd::prelude::*;
use crate::urls;

verus! {

/// A request-level failure. Every way a relayed lookup can go wrong is one of
/// these; none of them is allowed to take the serving process down.
#[derive(Clone, Copy, Debug, PartialEq, Eq, Structural)]
pub enum RelayError {
    /// The bearer token for the catalog provider is not configured.
    MissingSecret,
    /// A provider could not be reached at all.
    UpstreamUnreachable,
    /// A provider answered with the given non-success HTTP status.
    UpstreamRejected(u16),
    /// A provider's response body did not decode into the expected shape.
    MalformedResponse,
    /// The catalog response carried an empty artist list.
    NoArtists,
}

/// A track as the catalog provider describes it: its name, the names of its
/// artists in the provider's order, and its album's name, all as UTF-8 bytes.
#[derive(Clone, Debug)]
pub struct CatalogTrack {
    pub name: Vec<u8>,
    pub artists: Vec<Vec<u8>>,
    pub album: Vec<u8>,
}

/// One lyrics candidate from the lyrics provider. The provider reports the
/// duration in fractional seconds; it is carried here as whole milliseconds.
#[derive(Clone, Debug)]
pub struct LyricsRecord {
    pub id: i32,
    pub track_name: Vec<u8>,
    pub artist_name: Vec<u8>,
    pub album_name: Vec<u8>,
    pub duration_ms: u64,
    pub plain_lyrics: Vec<u8>,
}

/// The one authenticated GET that resolves a track identifier.
#[derive(Clone, Debug)]
pub struct CatalogRequest {
    /// The catalog provider's track-by-id URL for the identifier.
    pub url: Vec<u8>,
    /// The value of the request's authorization header.
    pub bearer: Vec<u8>,
}

/// The one unauthenticated GET that searches for lyrics.
#[derive(Clone, Debug)]
pub struct LyricsRequest {
    /// The lyrics provider's search URL for the three names.
    pub url: Vec<u8>,
}

/// What came back from the catalog provider, as the surrounding process saw
/// it: no connection, a non-success status, a body of the wrong shape, or a
/// decoded track.
#[derive(Clone, Debug)]
pub enum CatalogOutcome {
    Unreachable,
    Rejected(u16),
    Malformed,
    Track(CatalogTrack),
}

/// What came back from the lyrics provider: no connection, a non-success
/// status, a body of the wrong shape, or the decoded candidate list (possibly
/// empty).
#[derive(Clone, Debug)]
pub enum LyricsOutcome {
    Unreachable,
    Rejected(u16),
    Malformed,
    Records(Vec<LyricsRecord>),
}

/// Plan the catalog request for a track identifier. Without a configured
/// secret no request is made at all: the lookup fails with `MissingSecret`,
/// and only with it; with a secret, the planned request carries the
/// percent-encoded identifier in the URL and the secret in the bearer header.
pub fn start_request(secret: &Option<Vec<u8>>, track_id: &Vec<u8>) -> (r: Result<
    CatalogRequest,
    RelayError,
>)
    ensures
        (*secret) is None <==> r == Result::<CatalogRequest, RelayError>::Err(
            RelayError::MissingSecret,
        ),
        (*secret) matches Some(s) ==> (r matches Ok(req) && req.url@
            == urls::catalog_track_url_spec(track_id@) && req.bearer@ == urls::bearer_header_spec(
            s@,
        )),
{
    match secret {
        None => Err(RelayError::MissingSecret),
        Some(s) => Ok(
            CatalogRequest { url: urls::catalog_track_url(track_id), bearer: urls::bearer_header(s) },
        ),
    }
}

/// Turn the catalog outcome into the lyrics request, or into the error that
/// ends the lookup. A failed or malformed catalog response, and a catalog
/// track without any artist, never reach the lyrics provider; a track with at
/// least one artist is searched by its name, its first artist's name and its
/// album's name, and by nothing else.
pub fn plan_lyrics_request(o: &CatalogOutcome) -> (r: Result<LyricsRequest, RelayError>)
    ensures
        (*o) is Unreachable ==> r == Result::<LyricsRequest, RelayError>::Err(
            RelayError::UpstreamUnreachable,
        ),
        (*o) matches CatalogOutcome::Rejected(status) ==> r == Result::<
            LyricsRequest,
            RelayError,
        >::Err(RelayError::UpstreamRejected(status)),
        (*o) is Malformed ==> r == Result::<LyricsRequest, RelayError>::Err(
            RelayError::MalformedResponse,
        ),
        (*o) matches CatalogOutcome::Track(t) ==> {
            &&& t.artists@.len() == 0 ==> r == Result::<LyricsRequest, RelayError>::Err(
                RelayError::NoArtists,
            )
            &&& t.artists@.len() > 0 ==> (r matches Ok(req) && req.url@
                == urls::lyrics_search_url_spec(t.name@, t.artists@[0]@, t.album@))
        },
{
    match o {
        CatalogOutcome::Unreachable => Err(RelayError::UpstreamUnreachable),
        CatalogOutcome::Rejected(status) => Err(RelayError::UpstreamRejected(*status)),
        CatalogOutcome::Malformed => Err(RelayError::MalformedResponse),
        CatalogOutcome::Track(t) => {
            if t.artists.len() == 0 {
                Err(RelayError::NoArtists)
            } else {
                let first = &t.artists[0];
                Ok(LyricsRequest { url: urls::lyrics_search_url(&t.name, first, &t.album) })
            }
        },
    }
}

/// Turn the lyrics outcome into the lookup's result. A decoded candidate list
/// is returned as it came, the empty list included: finding no lyrics is a
/// successful lookup. Only a failed or malformed lyrics response is an error.
pub fn finish_request(o: LyricsOutcome) -> (r: Result<Vec<LyricsRecord>, RelayError>)
    ensures
        o is Unreachable ==> (r matches Err(e) && e == RelayError::UpstreamUnreachable),
        o matches LyricsOutcome::Rejected(status) ==> (r matches Err(e) && e
            == RelayError::UpstreamRejected(status)),
        o is Malformed ==> (r matches Err(e) && e == RelayError::MalformedResponse),
        o matches LyricsOutcome::Records(v) ==> (r matches Ok(out) && out == v),
{
    match o {
        LyricsOutcome::Unreachable => Err(RelayError::UpstreamUnreachable),
        LyricsOutcome::Rejected(status) => Err(RelayError::UpstreamRejected(status)),
        LyricsOutcome::Malformed => Err(RelayError::MalformedResponse),
        LyricsOutcome::Records(v) => Ok(v),
    }
}

/// The HTTP status that reports a request-level failure: 500 for the missing
/// secret (a misconfiguration of this process), 503 for an unreachable
/// provider, 502 for everything a provider answered wrongly.
pub open spec fn status_of(e: RelayError) -> u16 {
    match e {
        RelayError::MissingSecret => 500,
        RelayError::UpstreamUnreachable => 503,
        RelayError::UpstreamRejected(_) => 502,
        RelayError::MalformedResponse => 502,
        RelayError::NoArtists => 502,
    }
}

/// The HTTP status of the relay's response: 200 for every completed lookup,
/// the empty candidate list included, and the failure's status otherwise.
pub fn response_status(r: &Result<Vec<LyricsRecord>, RelayError>) -> (s: u16)
    ensures
        (*r) is Ok ==> s == 200,
        (*r) matches Err(e) ==> s == status_of(e),
{
    match r {
        Ok(_) => 200,
        Err(e) => match e {
            RelayError::MissingSecret => 500,
            RelayError::UpstreamUnreachable => 503,
            RelayError::UpstreamRejected(_) => 502,
            RelayError::MalformedResponse => 502,
            RelayError::NoArtists => 502,
        },
    }
}

/// What a failure means, for a diagnostic response body.
pub open spec fn description_of(e: RelayError) -> Seq<char> {
    match e {
        RelayError::MissingSecret => "the catalog access token is not configured"@,
        RelayError::UpstreamUnreachable => "an upstream provider could not be reached"@,
        RelayError::UpstreamRejected(_) => "an upstream provider rejected the request"@,
        RelayError::MalformedResponse => "an upstream response could not be decoded"@,
        RelayError::NoArtists => "the catalog lists no artist for this track"@,
    }
}

impl RelayError {
    /// A diagnostic message for this failure.
    pub fn describe(&self) -> (m: String)
        ensures
            m@ == description_of(*self),
    {
        match self {
            RelayError::MissingSecret => "the catalog access token is not configured".to_owned(),
            RelayError::UpstreamUnreachable => "an upstream provider could not be reached".to_owned(),
            RelayError::UpstreamRejected(_) => "an upstream provider rejected the request".to_owned(),
            RelayError::MalformedResponse => "an upstream response could not be decoded".to_owned(),
            RelayError::NoArtists => "the catalog lists no artist for this track".to_owned(),
        }
    }
}

} // verus!
