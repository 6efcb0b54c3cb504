//! The boundary with `std`, `http`, `biscuit`, `num` and `chrono`: the outside types the
//! library carries, the names it gives to what outside functions compute, and the wrappers
//! that make the calls. Everything here is believed, not proved.

use vstd::prelude::*;
use vstd::string::StringSliceAdditionalSpecFns;
use vstd::utf8::*;

verus! {

/// `http::HeaderMap`, the request's headers.
#[verifier::external_type_specification]
#[verifier::external_body]
#[verifier::reject_recursive_types(T)]
pub struct ExHeaderMap<T>(http::HeaderMap<T>);

/// `http::HeaderValue`, one header value.
#[verifier::external_type_specification]
#[verifier::external_body]
pub struct ExHeaderValue(http::HeaderValue);

/// `biscuit::errors::Error`, why a token could not be decoded or verified.
#[verifier::external_type_specification]
#[verifier::external_body]
pub struct ExBiscuitError(biscuit::errors::Error);

/// `chrono::NaiveDateTime`, a calendar date and time without a time zone.
#[verifier::external_type_specification]
#[verifier::external_body]
pub struct ExNaiveDateTime(chrono::NaiveDateTime);

/// `Clone` of `chrono::NaiveDateTime`, a `Copy` type whose clone is the value itself.
pub assume_specification[ <chrono::NaiveDateTime as Clone>::clone ](value: &chrono::NaiveDateTime) -> (copy: chrono::NaiveDateTime)
    ensures
        copy == *value,
;

/// What a header map holds: each header name present (as `HeaderName::as_str` gives it,
/// lower case) mapped to the bytes of its values, in the order in which they were added.
pub uninterp spec fn header_map_contents(headers: http::HeaderMap) -> Map<Seq<char>, Seq<Seq<u8>>>;

/// A header name that `http` looks up as written: 1 to 64 characters, each a lower-case
/// ASCII letter, a digit or `-`.
pub open spec fn is_plain_header_name(name: Seq<char>) -> bool {
    &&& 1 <= name.len() <= 64
    &&& forall|i: int|
        0 <= i < name.len() ==> {
            let c = #[trigger] name[i];
            ('a' <= c <= 'z') || ('0' <= c <= '9') || c == '-'
        }
}

/// `HeaderMap::get` followed by `HeaderValue::as_bytes`: the bytes of the first value stored
/// under `name`, if there is one. For a plain lower-case name, `http` parses it to that same
/// header name and looks it up; this item claims exactly that. For other names (upper case,
/// characters outside the plain set) `http` normalises or rejects the name first, and
/// nothing is claimed.
#[verifier::external_body]
pub(crate) fn header_first_value<'a>(headers: &'a http::HeaderMap, name: &str) -> (value: Option<&'a [u8]>)
    ensures
        is_plain_header_name(name@) ==> (value is Some <==> header_map_contents(*headers).dom().contains(name@)),
        is_plain_header_name(name@) ==> (value matches Some(v) ==> {
            &&& header_map_contents(*headers)[name@].len() > 0
            &&& v@ == header_map_contents(*headers)[name@][0]
        }),
{
    match headers.get(name) {
        Some(v) => Some(v.as_bytes()),
        None => None,
    }
}

/// `std::str::from_utf8`: the bytes read as a string when they are valid UTF-8 (then the
/// string's bytes are exactly the input), `None` when they are not.
#[verifier::external_body]
pub(crate) fn str_from_utf8<'a>(bytes: &'a [u8]) -> (text: Option<&'a str>)
    ensures
        text is Some <==> valid_utf8(bytes@),
        text matches Some(s) ==> s.spec_bytes() == bytes@,
{
    std::str::from_utf8(bytes).ok()
}

/// The view of an optional string.
pub open spec fn opt_string_view(s: Option<String>) -> Option<Seq<char>> {
    match s {
        Some(t) => Some(t@),
        None => None,
    }
}

/// The text that `Display` gives for a `biscuit::errors::Error`. It depends on the error's
/// value alone.
pub uninterp spec fn biscuit_error_display(error: biscuit::errors::Error) -> Seq<char>;

/// What `JWT::<Empty, Empty>::new_encoded(token).unverified_header()` gives for a compact
/// token: the header's key id (`kid`), itself optional, or, when the header part does not
/// decode, the `Display` text of the decoding error.
pub uninterp spec fn jwt_header_key_id(token: Seq<char>) -> Result<Option<Seq<char>>, Seq<char>>;

/// `biscuit::jws::Compact::new_encoded` then `unverified_header`: the `kid` of the token's
/// header, read without checking the signature. The result depends on the token alone.
#[verifier::external_body]
pub(crate) fn unverified_key_id(token: &str) -> (res: Result<Option<String>, biscuit::errors::Error>)
    ensures
        jwt_header_key_id(token@) == match res {
            Ok(kid) => Ok(opt_string_view(kid)),
            Err(e) => Err(biscuit_error_display(e)),
        },
{
    match biscuit::JWT::<biscuit::Empty, biscuit::Empty>::new_encoded(token).unverified_header() {
        Ok(header) => Ok(header.registered.key_id),
        Err(e) => Err(e),
    }
}

/// What decoding a compact token with `into_decoded` under `SignatureAlgorithm::RS256` and the
/// RSA public key with the given big-endian modulus and exponent gives: the claims' subject
/// (`sub`), itself optional, or, when the signature does not verify, the algorithm in the
/// header is not RS256 or a part does not decode, the `Display` text of that error.
pub uninterp spec fn rs256_token_subject(token: Seq<char>, modulus: Seq<u8>, exponent: Seq<u8>) -> Result<Option<Seq<char>>, Seq<char>>;

/// `biscuit::jws::Compact::into_decoded` with `SignatureAlgorithm::RS256` and the secret
/// `Secret::RSAModulusExponent` built from the bytes by `num::BigUint::from_bytes_be`, then the
/// subject of the decoded claims (`payload` cannot fail on a decoded token). The result
/// depends on the three arguments alone.
#[verifier::external_body]
pub(crate) fn rs256_verified_subject(token: &str, modulus: &[u8], exponent: &[u8]) -> (res: Result<Option<String>, biscuit::errors::Error>)
    ensures
        rs256_token_subject(token@, modulus@, exponent@) == match res {
            Ok(sub) => Ok(opt_string_view(sub)),
            Err(e) => Err(biscuit_error_display(e)),
        },
{
    let secret = biscuit::jws::Secret::RSAModulusExponent {
        n: num::BigUint::from_bytes_be(modulus),
        e: num::BigUint::from_bytes_be(exponent),
    };
    let token = biscuit::JWT::<biscuit::Empty, biscuit::Empty>::new_encoded(token);
    match token.into_decoded(&secret, biscuit::jwa::SignatureAlgorithm::RS256) {
        Ok(decoded) => match decoded.payload() {
            Ok(claims) => Ok(claims.registered.subject.clone()),
            Err(e) => Err(e),
        },
        Err(e) => Err(e),
    }
}

/// `Display` of `biscuit::errors::Error`, through `format!`: the error's text.
#[verifier::external_body]
pub(crate) fn biscuit_error_text(error: &biscuit::errors::Error) -> (text: String)
    ensures
        text@ == biscuit_error_display(*error),
{
    format!("{}", error)
}

/// `chrono::Utc::now` then `naive_utc`: the current UTC time. It depends on the clock, so
/// nothing is claimed of it.
#[verifier::external_body]
pub(crate) fn utc_now() -> chrono::NaiveDateTime {
    chrono::Utc::now().naive_utc()
}

} // verus!
