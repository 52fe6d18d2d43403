use podcast_search::{
    build_url, ContentAdvisoryRating, Country, Currency, Explicitness, Kind, PodcastSearchError,
    WrapperType, SEARCH_URL_PREFIX,
};

#[test]
fn it_works() {
    assert_eq!(2 + 2, 4);
}

#[test]
fn url_for_term_with_spaces() {
    assert_eq!(
        build_url("This American Life"),
        "https://itunes.apple.com/search?media=podcast&entity=podcast&term=This%20American%20Life"
    );
}

#[test]
fn url_for_empty_term_is_the_prefix() {
    assert_eq!(build_url(""), SEARCH_URL_PREFIX);
    assert_eq!(
        SEARCH_URL_PREFIX,
        "https://itunes.apple.com/search?media=podcast&entity=podcast&term="
    );
}

#[test]
fn alphanumeric_term_is_unchanged() {
    let url = build_url("abcXYZ0189");
    assert!(url.starts_with(SEARCH_URL_PREFIX));
    assert_eq!(&url[SEARCH_URL_PREFIX.len()..], "abcXYZ0189");
}

#[test]
fn unreserved_punctuation_is_encoded_too() {
    let url = build_url("-_.~");
    assert_eq!(&url[SEARCH_URL_PREFIX.len()..], "%2D%5F%2E%7E");
}

#[test]
fn non_ascii_term_is_encoded_byte_by_byte() {
    let url = build_url("café & co");
    assert_eq!(&url[SEARCH_URL_PREFIX.len()..], "caf%C3%A9%20%26%20co");
}

#[test]
fn explicitness_tags() {
    assert_eq!(Explicitness::from_tag("cleaned"), Some(Explicitness::Cleaned));
    assert_eq!(Explicitness::from_tag("explicit"), Some(Explicitness::Explicit));
    assert_eq!(Explicitness::from_tag("notExplicit"), Some(Explicitness::NotExplicit));
    assert_eq!(Explicitness::NotExplicit.tag(), "notExplicit");
    assert_eq!(Explicitness::from_tag("Explicit"), None);
    assert_eq!(Explicitness::from_tag("somewhatExplicit"), None);
    assert_eq!(Explicitness::from_tag(""), None);
}

#[test]
fn every_tag_reads_back_as_its_value() {
    for e in [Explicitness::Cleaned, Explicitness::Explicit, Explicitness::NotExplicit] {
        assert_eq!(Explicitness::from_tag(e.tag()), Some(e));
    }
    for r in [ContentAdvisoryRating::Clean, ContentAdvisoryRating::Explicit] {
        assert_eq!(ContentAdvisoryRating::from_tag(r.tag()), Some(r));
    }
    assert_eq!(Country::from_tag(Country::USA.tag()), Some(Country::USA));
    assert_eq!(Currency::from_tag(Currency::USD.tag()), Some(Currency::USD));
    assert_eq!(Kind::from_tag(Kind::Podcast.tag()), Some(Kind::Podcast));
    assert_eq!(WrapperType::from_tag(WrapperType::Track.tag()), Some(WrapperType::Track));
}

#[test]
fn other_tags_are_refused() {
    assert_eq!(ContentAdvisoryRating::Clean.tag(), "Clean");
    assert_eq!(ContentAdvisoryRating::from_tag("clean"), None);
    assert_eq!(ContentAdvisoryRating::from_tag("Explicit"), Some(ContentAdvisoryRating::Explicit));
    assert_eq!(Country::USA.tag(), "USA");
    assert_eq!(Country::from_tag("GBR"), None);
    assert_eq!(Currency::USD.tag(), "USD");
    assert_eq!(Currency::from_tag("EUR"), None);
    assert_eq!(Kind::from_tag("song"), None);
    assert_eq!(WrapperType::from_tag("collection"), None);
}

#[test]
fn scenario_result_tags() {
    assert_eq!(WrapperType::from_tag("track"), Some(WrapperType::Track));
    assert_eq!(Kind::from_tag("podcast"), Some(Kind::Podcast));
}

#[test]
fn truncated_body_is_a_parse_error() {
    let err = serde_json::from_str::<serde_json::Value>("{\"resultCount\":1,\"results\":[")
        .unwrap_err();
    let e = PodcastSearchError::from(err);
    assert!(e.is_parse());
    assert!(!e.is_fetch());
    assert!(matches!(e, PodcastSearchError::ParseError { .. }));
}

#[test]
fn transport_error_is_a_fetch_error() {
    let err = reqwest::Client::new().get("not a url").build().unwrap_err();
    let e = PodcastSearchError::from(err);
    assert!(e.is_fetch());
    assert!(!e.is_parse());
}

#[test]
fn unknown_error_is_neither() {
    let e = PodcastSearchError::Unknown;
    assert!(!e.is_fetch());
    assert!(!e.is_parse());
}
