use vstd::prelude::*;
use vstd::string::StringExecFns;
use vstd::utf8::{encode_scalar, encode_utf8};

verus! {

/// The fixed part of every search request: endpoint, media and entity, and the
/// name of the parameter that carries the term.
pub const SEARCH_URL_PREFIX: &'static str =
    "https://itunes.apple.com/search?media=podcast&entity=podcast&term=";

/// An ASCII digit or letter, as a byte.
pub open spec fn is_alphanumeric_byte(b: u8) -> bool {
    (0x30 <= b <= 0x39) || (0x41 <= b <= 0x5A) || (0x61 <= b <= 0x7A)
}

/// An ASCII digit or letter, as a character.
pub open spec fn is_alphanumeric_char(c: char) -> bool {
    ('0' <= c <= '9') || ('A' <= c <= 'Z') || ('a' <= c <= 'z')
}

/// The upper-case hexadecimal digit of a value below 16.
pub open spec fn hex_digit(n: u8) -> char
    recommends
        n < 16,
{
    if n < 10 {
        (0x30 + n) as u8 as char
    } else {
        (0x37 + n) as u8 as char
    }
}

/// `%XX`: a byte written as a percent sign and two upper-case hex digits.
pub open spec fn escape_byte(b: u8) -> Seq<char> {
    seq!['%', hex_digit(b / 16), hex_digit(b % 16)]
}

/// Every byte escaped.
pub open spec fn escape_bytes(bytes: Seq<u8>) -> Seq<char>
    decreases bytes.len(),
{
    if bytes.len() == 0 {
        seq![]
    } else {
        escape_byte(bytes[0]) + escape_bytes(bytes.drop_first())
    }
}

/// A byte kept as its character when it is an ASCII digit or letter, escaped otherwise.
pub open spec fn encode_byte(b: u8) -> Seq<char> {
    if is_alphanumeric_byte(b) {
        seq![b as char]
    } else {
        escape_byte(b)
    }
}

/// Each byte encoded in turn.
pub open spec fn encode_bytes(bytes: Seq<u8>) -> Seq<char>
    decreases bytes.len(),
{
    if bytes.len() == 0 {
        seq![]
    } else {
        encode_byte(bytes[0]) + encode_bytes(bytes.drop_first())
    }
}

/// The term as it stands in the query: its UTF-8 bytes, each one that is not an
/// ASCII digit or letter escaped.
pub open spec fn encoded_term(term: Seq<char>) -> Seq<char> {
    encode_bytes(encode_utf8(term))
}

/// The same encoding told character by character: an ASCII digit or letter
/// stays, any other character becomes the escapes of all its UTF-8 bytes.
pub open spec fn encoded_term_by_chars(term: Seq<char>) -> Seq<char>
    decreases term.len(),
{
    if term.len() == 0 {
        seq![]
    } else {
        let c = term[0];
        let head = if is_alphanumeric_char(c) {
            seq![c]
        } else {
            escape_bytes(encode_scalar(c as u32))
        };
        head + encoded_term_by_chars(term.drop_first())
    }
}

/// The full request URL for a term.
pub open spec fn search_url(term: Seq<char>) -> Seq<char> {
    SEARCH_URL_PREFIX@ + encoded_term(term)
}

/// Relies on `percent_encoding::utf8_percent_encode` with the set
/// `NON_ALPHANUMERIC`, written out through its `Display`: every byte of the
/// term's UTF-8 form that is not an ASCII letter or digit comes out as `%XX`
/// with upper-case hex digits, every other byte as itself.
#[verifier::external_body]
fn percent_encode_term(term: &str) -> (r: String)
    ensures
        r@ == encoded_term(term@),
{
    percent_encoding::utf8_percent_encode(term, percent_encoding::NON_ALPHANUMERIC).to_string()
}

/// Builds the request URL for a search term.
pub fn build_url(term: &str) -> (url: String)
    ensures
        url@ == search_url(term@),
        url@.subrange(0, SEARCH_URL_PREFIX@.len() as int) == SEARCH_URL_PREFIX@,
        url@.subrange(SEARCH_URL_PREFIX@.len() as int, url@.len() as int) == encoded_term(term@),
{
    let encoded = percent_encode_term(term);
    let mut url = String::from_str(SEARCH_URL_PREFIX);
    url.append(encoded.as_str());
    proof {
        lemma_url_prefix_and_term(term@);
    }
    url
}

/// Every built URL starts with the fixed prefix and ends with the encoded term.
pub proof fn lemma_url_prefix_and_term(term: Seq<char>)
    ensures
        search_url(term).subrange(0, SEARCH_URL_PREFIX@.len() as int) == SEARCH_URL_PREFIX@,
        search_url(term).subrange(SEARCH_URL_PREFIX@.len() as int, search_url(term).len() as int)
            == encoded_term(term),
{
    assert(search_url(term).subrange(0, SEARCH_URL_PREFIX@.len() as int) =~= SEARCH_URL_PREFIX@);
    assert(search_url(term).subrange(SEARCH_URL_PREFIX@.len() as int, search_url(term).len() as int)
        =~= encoded_term(term));
}

/// A term made only of ASCII letters and digits is encoded as itself.
pub proof fn lemma_alphanumeric_term_unchanged(term: Seq<char>)
    requires
        forall|i: int| 0 <= i < term.len() ==> is_alphanumeric_char(#[trigger] term[i]),
    ensures
        encoded_term(term) == term,
{
    lemma_encoded_term_by_chars(term);
    lemma_by_chars_alphanumeric(term);
}

proof fn lemma_by_chars_alphanumeric(term: Seq<char>)
    requires
        forall|i: int| 0 <= i < term.len() ==> is_alphanumeric_char(#[trigger] term[i]),
    ensures
        encoded_term_by_chars(term) == term,
    decreases term.len(),
{
    if term.len() > 0 {
        let rest = term.drop_first();
        assert forall|i: int| 0 <= i < rest.len() implies is_alphanumeric_char(#[trigger] rest[i]) by {
            assert(rest[i] == term[i + 1]);
        }
        lemma_by_chars_alphanumeric(rest);
        assert(is_alphanumeric_char(term[0]));
        assert(seq![term[0]] + rest =~= term);
    }
}

proof fn lemma_encode_bytes_concat(a: Seq<u8>, b: Seq<u8>)
    ensures
        encode_bytes(a + b) == encode_bytes(a) + encode_bytes(b),
    decreases a.len(),
{
    if a.len() == 0 {
        assert(a + b =~= b);
    } else {
        assert((a + b).drop_first() =~= a.drop_first() + b);
        lemma_encode_bytes_concat(a.drop_first(), b);
        assert(encode_byte(a[0]) + (encode_bytes(a.drop_first()) + encode_bytes(b))
            =~= (encode_byte(a[0]) + encode_bytes(a.drop_first())) + encode_bytes(b));
    }
}

/// Bytes none of which is an ASCII letter or digit are all escaped.
proof fn lemma_encode_bytes_all_escaped(bytes: Seq<u8>)
    requires
        forall|i: int| 0 <= i < bytes.len() ==> !is_alphanumeric_byte(#[trigger] bytes[i]),
    ensures
        encode_bytes(bytes) == escape_bytes(bytes),
    decreases bytes.len(),
{
    if bytes.len() > 0 {
        let rest = bytes.drop_first();
        assert forall|i: int| 0 <= i < rest.len() implies !is_alphanumeric_byte(#[trigger] rest[i]) by {
            assert(rest[i] == bytes[i + 1]);
        }
        assert(!is_alphanumeric_byte(bytes[0]));
        lemma_encode_bytes_all_escaped(rest);
    }
}

proof fn lemma_high_bits(x: u32)
    ensures
        (0x80u8 | ((x & 0x3F) as u8)) >= 0x80,
        (0x80u8 | (((x >> 6) & 0x3F) as u8)) >= 0x80,
        (0x80u8 | (((x >> 12) & 0x3F) as u8)) >= 0x80,
        (0xC0u8 | (((x >> 6) & 0x1F) as u8)) >= 0x80,
        (0xE0u8 | (((x >> 12) & 0x0F) as u8)) >= 0x80,
        (0xF0u8 | (((x >> 18) & 0x7) as u8)) >= 0x80,
{
    assert((0x80u8 | ((x & 0x3F) as u8)) >= 0x80) by (bit_vector);
    assert((0x80u8 | (((x >> 6) & 0x3F) as u8)) >= 0x80) by (bit_vector);
    assert((0x80u8 | (((x >> 12) & 0x3F) as u8)) >= 0x80) by (bit_vector);
    assert((0xC0u8 | (((x >> 6) & 0x1F) as u8)) >= 0x80) by (bit_vector);
    assert((0xE0u8 | (((x >> 12) & 0x0F) as u8)) >= 0x80) by (bit_vector);
    assert((0xF0u8 | (((x >> 18) & 0x7) as u8)) >= 0x80) by (bit_vector);
}

/// The encoding of one character's UTF-8 bytes.
proof fn lemma_encode_one_char(c: char)
    ensures
        encode_bytes(encode_scalar(c as u32)) == if is_alphanumeric_char(c) {
            seq![c]
        } else {
            escape_bytes(encode_scalar(c as u32))
        },
{
    let v = c as u32;
    let bytes = encode_scalar(v);
    if v <= 0x7F {
        assert((v & 0x7F) == v) by (bit_vector)
            requires
                v <= 0x7F,
        ;
        let b = (v & 0x7F) as u8;
        assert(bytes =~= seq![b]);
        assert(b as u32 == v);
        vstd::utf8::char_u32_cast(c, v);
        assert(b as char == c);
        assert(is_alphanumeric_byte(b) == is_alphanumeric_char(c));
        assert(bytes.drop_first() =~= Seq::<u8>::empty());
        assert(bytes[0] == b);
        assert(encode_bytes(bytes.drop_first()) =~= Seq::<char>::empty());
        assert(escape_bytes(bytes.drop_first()) =~= Seq::<char>::empty());
        assert(encode_bytes(bytes) =~= encode_byte(b));
        assert(escape_bytes(bytes) =~= escape_byte(b));
    } else {
        lemma_high_bits(v);
        assert(!is_alphanumeric_char(c));
        assert forall|i: int| 0 <= i < bytes.len() implies !is_alphanumeric_byte(
            #[trigger] bytes[i],
        ) by {
            assert(bytes[i] >= 0x80);
        }
        lemma_encode_bytes_all_escaped(bytes);
    }
}

/// Encoding a term is the same as encoding each of its characters on its
/// own: an ASCII letter or digit is kept, any other character is replaced by
/// the percent escapes of its UTF-8 bytes.
pub proof fn lemma_encoded_term_by_chars(term: Seq<char>)
    ensures
        encoded_term(term) == encoded_term_by_chars(term),
    decreases term.len(),
{
    if term.len() > 0 {
        let rest = term.drop_first();
        lemma_encoded_term_by_chars(rest);
        lemma_encode_bytes_concat(encode_scalar(term[0] as u32), encode_utf8(rest));
        lemma_encode_one_char(term[0]);
    }
}

} // verus!
