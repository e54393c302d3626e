//! The calls this library makes into std functions that vstd leaves without a
//! specification, and into outside crates, each with the contract the
//! library relies on.

use vstd::prelude::*;
use argon2::PasswordVerifier;

verus! {

/// `String::push`: appends `c` to the end of `s`.
#[verifier::external_body]
pub(crate) fn push_char(s: &mut String, c: char)
    ensures
        final(s)@ == old(s)@.push(c),
{
    s.push(c);
}

} // verus!

verus! {

/// The Unicode lowercase mapping of a text, as `str::to_lowercase` computes it.
pub uninterp spec fn unicode_lowercase(s: Seq<char>) -> Seq<char>;

/// The Unicode uppercase mapping of a text, as `str::to_uppercase` computes it.
pub uninterp spec fn unicode_uppercase(s: Seq<char>) -> Seq<char>;

/// `str::to_lowercase`: the result is the Unicode lowercase mapping of `s`,
/// which depends on `s` alone (no locale is consulted). On ASCII text the
/// Unicode mapping is the ASCII one, `A`–`Z` to `a`–`z` and every other
/// character kept (what `str::to_ascii_lowercase` does; its documentation
/// names `to_lowercase` as the same mapping extended beyond ASCII).
#[verifier::external_body]
pub(crate) fn str_to_lowercase(s: &str) -> (r: String)
    ensures
        r@ == unicode_lowercase(s@),
        crate::text::is_ascii_text(s@) ==> r@ == crate::text::ascii_lower_seq(s@),
{
    s.to_lowercase()
}

/// `str::to_uppercase`: the result is the Unicode uppercase mapping of `s`,
/// which depends on `s` alone (no locale is consulted). On ASCII text the
/// Unicode mapping is the ASCII one, `a`–`z` to `A`–`Z` and every other
/// character kept (what `str::to_ascii_uppercase` does; its documentation
/// names `to_uppercase` as the same mapping extended beyond ASCII).
#[verifier::external_body]
pub(crate) fn str_to_uppercase(s: &str) -> (r: String)
    ensures
        r@ == unicode_uppercase(s@),
        crate::text::is_ascii_text(s@) ==> r@ == crate::text::ascii_upper_seq(s@),
{
    s.to_uppercase()
}

} // verus!

verus! {

/// The value of a UUID text, as `Uuid::parse_str` (what `str::parse::<Uuid>`
/// calls) reads it; `None` for a text it rejects.
pub uninterp spec fn uuid_parse(s: Seq<char>) -> Option<u128>;

/// `Uuid::parse_str`, with the UUID taken as its 128-bit value (`as_u128`).
/// The result depends on the text alone, and the hyphenated text the crate
/// prints for a value parses back to that value, as the crate documents
/// ("any of the formats generated by this module … are supported").
#[verifier::external_body]
pub(crate) fn parse_uuid(s: &str) -> (r: Option<u128>)
    ensures
        r == uuid_parse(s@),
        forall|v: u128| s@ == crate::numbers::uuid_text(v) ==> r == Some(v),
{
    match uuid::Uuid::parse_str(s) {
        Ok(u) => Some(u.as_u128()),
        Err(_) => None,
    }
}

} // verus!

verus! {

/// `Uuid::new_v4`, taken as its 128-bit value: random, with the version
/// nibble set to 4 and the variant bits to `10` (RFC 9562), as the crate
/// sets them. Two calls may give any two such values.
#[verifier::external_body]
pub(crate) fn new_uuid_v4() -> (r: u128)
    ensures
        (r >> 76u128) & 0xfu128 == 4,
        (r >> 62u128) & 0x3u128 == 2,
{
    uuid::Uuid::new_v4().as_u128()
}

} // verus!

verus! {

/// Whether Argon2 accepts `password` for the PHC string `stored`: the
/// string parses as a password hash, names an Argon2 variant with valid
/// parameters, and hashing the password with its salt and parameters gives
/// its hash. A deterministic function of the two texts.
pub uninterp spec fn argon2_accepts(password: Seq<char>, stored: Seq<char>) -> bool;

/// `Argon2::default().verify_password(password, stored)` (argon2's
/// `PasswordVerifier<str>`, which parses `stored` itself) succeeding.
#[verifier::external_body]
pub(crate) fn argon2_verify(password: &str, stored: &str) -> (r: bool)
    ensures
        r == argon2_accepts(password@, stored@),
{
    argon2::Argon2::default().verify_password(password.as_bytes(), stored).is_ok()
}

} // verus!

verus! {

/// `urlencoding::encode`: every UTF-8 byte of `s` except ASCII letters,
/// digits and `-`, `.`, `_`, `~` becomes `%` and two uppercase hexadecimal
/// digits; those characters stay as they are (its documentation and its
/// `to_hex_digit`).
#[verifier::external_body]
pub(crate) fn url_encode(s: &str) -> (r: String)
    ensures
        r@ == crate::text::percent_encoded(s@),
{
    urlencoding::encode(s).into_owned()
}

} // verus!
