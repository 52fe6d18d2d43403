//! A client library for the iTunes podcast search API: the request URL is
//! built from a free-text term, and the closed sets of tags that the
//! response schema uses are read and written with exact contracts.

mod error;
mod query;
mod schema;

pub use error::PodcastSearchError;
pub use query::{
    build_url, encode_byte, encode_bytes, encoded_term, encoded_term_by_chars, escape_byte,
    escape_bytes, hex_digit, is_alphanumeric_byte, is_alphanumeric_char,
    lemma_alphanumeric_term_unchanged, lemma_encoded_term_by_chars, lemma_url_prefix_and_term,
    search_url, SEARCH_URL_PREFIX,
};
pub use schema::{ContentAdvisoryRating, Country, Currency, Explicitness, Kind, WrapperType};
