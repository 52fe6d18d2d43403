use vstd::prelude::*;

verus! {

/// The transport's error, carried through unopened.
#[verifier::external_type_specification]
#[verifier::external_body]
pub struct ExReqwestError(reqwest::Error);

/// The JSON decoder's error, carried through unopened.
#[verifier::external_type_specification]
#[verifier::external_body]
pub struct ExJsonError(serde_json::Error);

/// Why a search failed.
#[derive(Debug)]
pub enum PodcastSearchError {
    /// The request could not be made or its response not read.
    FetchError { source: reqwest::Error },
    /// The response body is not JSON of the expected shape.
    ParseError { source: serde_json::Error },
    /// Kept for failures of no other kind; no search produces it.
    Unknown,
}

impl PodcastSearchError {
    /// Whether the failure is one of the transport.
    pub open spec fn is_fetch_spec(&self) -> bool {
        self is FetchError
    }

    /// Whether the failure is one of decoding the body.
    pub open spec fn is_parse_spec(&self) -> bool {
        self is ParseError
    }

    #[verifier::when_used_as_spec(is_fetch_spec)]
    pub fn is_fetch(&self) -> (r: bool)
        ensures
            r == self.is_fetch_spec(),
    {
        matches!(self, PodcastSearchError::FetchError { .. })
    }

    #[verifier::when_used_as_spec(is_parse_spec)]
    pub fn is_parse(&self) -> (r: bool)
        ensures
            r == self.is_parse_spec(),
    {
        matches!(self, PodcastSearchError::ParseError { .. })
    }
}

impl From<reqwest::Error> for PodcastSearchError {
    fn from(source: reqwest::Error) -> (r: Self)
        ensures
            r == (PodcastSearchError::FetchError { source }),
    {
        PodcastSearchError::FetchError { source }
    }
}

impl vstd::std_specs::convert::FromSpecImpl<reqwest::Error> for PodcastSearchError {
    open spec fn obeys_from_spec() -> bool {
        true
    }

    open spec fn from_spec(v: reqwest::Error) -> Self {
        PodcastSearchError::FetchError { source: v }
    }
}

impl From<serde_json::Error> for PodcastSearchError {
    fn from(source: serde_json::Error) -> (r: Self)
        ensures
            r == (PodcastSearchError::ParseError { source }),
    {
        PodcastSearchError::ParseError { source }
    }
}

impl vstd::std_specs::convert::FromSpecImpl<serde_json::Error> for PodcastSearchError {
    open spec fn obeys_from_spec() -> bool {
        true
    }

    open spec fn from_spec(v: serde_json::Error) -> Self {
        PodcastSearchError::ParseError { source: v }
    }
}

} // verus!
