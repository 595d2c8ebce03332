//! Addresses: absolute URLs, references joined onto them, and the
//! `application/x-www-form-urlencoded` syntax of queries and form bodies.
//!
//! The `url` crate parses and joins, and `hyper` says whether it would take
//! the outcome as a request target. Their answers are functions of the text
//! they are given; the library knows them by name only.
use std::str::FromStr;
use vstd::prelude::*;
use vstd::string::*;

verus! {

/// What `url::Url::parse` makes of `input`: the serialization of the URL it
/// reads, or the message of its error.
pub uninterp spec fn parsed_url(input: Seq<char>) -> Result<Seq<char>, Seq<char>>;

/// What `url::Url::join` makes of `reference` on the URL that `url::Url::parse`
/// reads from `base`: the serialization of the joined URL, or the message of
/// the error of whichever of the two failed.
pub uninterp spec fn joined_url(base: Seq<char>, reference: Seq<char>) -> Result<
    Seq<char>,
    Seq<char>,
>;

/// Whether `hyper::Uri::from_str` accepts `target`.
pub uninterp spec fn accepted_request_target(target: Seq<char>) -> bool;

/// The view of a result whose two sides are strings.
pub open spec fn text_result(r: Result<String, String>) -> Result<Seq<char>, Seq<char>> {
    match r {
        Ok(s) => Ok(s@),
        Err(e) => Err(e@),
    }
}

/// `url::Url::parse` on `input`. Gives the URL's serialization
/// (`Url::into_string`), or the error's `Display` text; both are
/// `parsed_url` of the input.
#[verifier::external_body]
pub(crate) fn parse_url(input: &str) -> (r: Result<String, String>)
    ensures
        text_result(r) == parsed_url(input@),
{
    match url::Url::parse(input) {
        Ok(u) => Ok(u.into_string()),
        Err(e) => Err(e.to_string()),
    }
}

/// `url::Url::join`: parses `base` with `url::Url::parse` and joins
/// `reference` onto it. Gives the serialization of the joined URL, or the
/// `Display` text of the first error; both are `joined_url` of the two texts.
#[verifier::external_body]
pub(crate) fn join_url(base: &str, reference: &str) -> (r: Result<String, String>)
    ensures
        text_result(r) == joined_url(base@, reference@),
{
    let joined = match url::Url::parse(base) {
        Ok(u) => u.join(reference),
        Err(e) => Err(e),
    };
    match joined {
        Ok(u) => Ok(u.into_string()),
        Err(e) => Err(e.to_string()),
    }
}

/// `hyper::Uri::from_str` on `target`: whether it returns `Ok`.
#[verifier::external_body]
pub(crate) fn is_request_target(target: &str) -> (ok: bool)
    ensures
        ok == accepted_request_target(target@),
{
    hyper::Uri::from_str(target).is_ok()
}

/// Whether the form syntax leaves a byte as it is: the ASCII letters and
/// digits, and `*`, `-`, `.` and `_`.
pub open spec fn form_byte_kept(b: u8) -> bool {
    b == 0x2a || b == 0x2d || b == 0x2e || (0x30 <= b <= 0x39) || (0x41 <= b <= 0x5a) || b
        == 0x5f || (0x61 <= b <= 0x7a)
}

/// The upper-case hexadecimal numeral of a value below sixteen.
pub open spec fn hex_upper(d: int) -> char {
    if d < 10 {
        crate::text::digit_char(d)
    } else if d == 10 {
        'A'
    } else if d == 11 {
        'B'
    } else if d == 12 {
        'C'
    } else if d == 13 {
        'D'
    } else if d == 14 {
        'E'
    } else {
        'F'
    }
}

/// One byte in form syntax: itself where it is kept, `+` for a space, and
/// otherwise `%` with its two hexadecimal numerals.
pub open spec fn form_escaped_byte(b: u8) -> Seq<char> {
    if form_byte_kept(b) {
        seq![b as char]
    } else if b == 0x20 {
        seq!['+']
    } else {
        seq!['%', hex_upper(b as int / 16), hex_upper(b as int % 16)]
    }
}

/// A run of bytes in form syntax, byte by byte.
pub open spec fn form_escaped(bytes: Seq<u8>) -> Seq<char>
    decreases bytes.len(),
{
    if bytes.len() == 0 {
        Seq::empty()
    } else {
        form_escaped(bytes.drop_last()) + form_escaped_byte(bytes.last())
    }
}

/// A name and its value as one pair of a form: both escaped, `=` between.
pub open spec fn form_pair(name: Seq<char>, value: Seq<char>) -> Seq<char> {
    form_escaped(vstd::utf8::encode_utf8(name)) + seq!['='] + form_escaped(
        vstd::utf8::encode_utf8(value),
    )
}

/// A form with one more pair at its end, after `&` where it held any before.
pub open spec fn form_with_pair(form: Seq<char>, name: Seq<char>, value: Seq<char>) -> Seq<
    char,
> {
    if form.len() == 0 {
        form_pair(name, value)
    } else {
        form + seq!['&'] + form_pair(name, value)
    }
}

/// `url::form_urlencoded::Serializer::append_pair`, on a serializer made by
/// `Serializer::new(form)` and ended by `finish`. The serializer puts `&`
/// after a target that is not empty, then the name, `=` and the value, each
/// as `byte_serialize` writes its UTF-8 bytes.
#[verifier::external_body]
pub(crate) fn append_pair(form: String, name: &str, value: &str) -> (r: String)
    ensures
        r@ == form_with_pair(form@, name@, value@),
{
    url::form_urlencoded::Serializer::new(form).append_pair(name, value).finish()
}

/// Whether the form syntax leaves a character as it is.
pub open spec fn form_char_kept(c: char) -> bool {
    c == '*' || c == '-' || c == '.' || c == '_' || ('0' <= c <= '9') || ('A' <= c <= 'Z') || (
    'a' <= c <= 'z')
}

/// A text of letters, digits and `*`, `-`, `.`, `_` stands for itself in a
/// form.
pub proof fn lemma_kept_text_is_unchanged(text: Seq<char>)
    requires
        forall|i: int| 0 <= i < text.len() ==> form_char_kept(#[trigger] text[i]),
    ensures
        form_escaped(vstd::utf8::encode_utf8(text)) == text,
{
    assert(vstd::utf8::is_ascii_chars(text));
    vstd::utf8::is_ascii_chars_encode_utf8(text);
    let bytes = vstd::utf8::encode_utf8(text);
    lemma_kept_bytes(bytes, text, bytes.len() as int);
    assert(bytes.take(bytes.len() as int) =~= bytes);
    assert(text.take(text.len() as int) =~= text);
}

proof fn lemma_kept_bytes(bytes: Seq<u8>, text: Seq<char>, k: int)
    requires
        bytes.len() == text.len(),
        0 <= k <= bytes.len(),
        forall|i: int| 0 <= i < text.len() ==> form_char_kept(#[trigger] text[i]),
        forall|i: int| 0 <= i < text.len() ==> text[i] as u8 == #[trigger] bytes[i],
    ensures
        form_escaped(bytes.take(k)) == text.take(k),
    decreases k,
{
    if k == 0 {
        assert(text.take(0) =~= Seq::<char>::empty());
    } else {
        lemma_kept_bytes(bytes, text, k - 1);
        let head = bytes.take(k);
        assert(head.drop_last() =~= bytes.take(k - 1));
        assert(head.last() == bytes[k - 1]);
        let c = text[k - 1];
        let b = bytes[k - 1];
        assert(form_char_kept(c));
        assert(c as u8 == b);
        assert(form_byte_kept(b));
        assert(b as char == c);
        assert(text.take(k) =~= text.take(k - 1).push(c));
    }
}

} // verus!
