//! Reading the bearer token of a request and verifying it against the issuer's key set.

use vstd::prelude::*;
use vstd::string::StringSliceAdditionalSpecFns;
use vstd::utf8::*;

use crate::auth::errors::{AuthError, AuthFailure};
use crate::auth::keys::{first_key_with_id, lemma_first_key_with_id, KeyParameters, KeySet, PublicKey};
use crate::trusted::{
    header_first_value, header_map_contents, is_plain_header_name, jwt_header_key_id,
    opt_string_view, rs256_token_subject, rs256_verified_subject, str_from_utf8,
    unverified_key_id,
};

verus! {

broadcast use vstd::utf8::encode_utf8_decode_utf8, vstd::utf8::encode_utf8_valid_utf8;

/// The scheme that opens an `Authorization` header carrying a token: `Bearer ` (with its
/// space).
pub open spec fn bearer() -> Seq<char> {
    seq!['B', 'e', 'a', 'r', 'e', 'r', ' ']
}

/// The name of the header that carries the token, as a header map stores it.
pub open spec fn authorization() -> Seq<char> {
    seq!['a', 'u', 't', 'h', 'o', 'r', 'i', 'z', 'a', 't', 'i', 'o', 'n']
}

/// Whether `s` begins with `prefix`.
pub open spec fn starts_with(s: Seq<char>, prefix: Seq<char>) -> bool {
    prefix.len() <= s.len() && s.take(prefix.len() as int) == prefix
}

/// `s` with every leading repetition of a non-empty `prefix` removed (what `str`'s
/// `trim_start_matches` does with a string pattern).
pub open spec fn trim_start_matches(s: Seq<char>, prefix: Seq<char>) -> Seq<char>
    decreases s.len(),
{
    if prefix.len() > 0 && starts_with(s, prefix) {
        trim_start_matches(s.skip(prefix.len() as int), prefix)
    } else {
        s
    }
}

/// What the `Authorization` header of a request gives, from what the request's header map
/// holds: no token when the header is absent or its first value is not UTF-8, a refusal when
/// that value does not begin with `Bearer `, else the value with its leading `Bearer `s
/// removed.
pub open spec fn header_token(headers: Map<Seq<char>, Seq<Seq<u8>>>) -> Result<Option<Seq<char>>, AuthFailure> {
    if !headers.dom().contains(authorization()) {
        Ok(None)
    } else if !valid_utf8(headers[authorization()][0]) {
        Ok(None)
    } else {
        let text = decode_utf8(headers[authorization()][0]);
        if starts_with(text, bearer()) {
            Ok(Some(trim_start_matches(text, bearer())))
        } else {
            Err(AuthFailure::InvalidAuthHeader)
        }
    }
}

/// What verifying a token against a key set gives: the token's subject claim when its
/// header names a key of the set (the first with that id), that key is an RSA key, and the
/// token's RS256 signature verifies under it; a key-set failure when the header names no key,
/// one the set lacks, or a key that is not RSA; a token failure, with the decoder's
/// description, when the header or the token does not decode or verify.
pub open spec fn token_subject(token: Seq<char>, keys: Seq<PublicKey>) -> Result<Option<Seq<char>>, AuthFailure> {
    match jwt_header_key_id(token) {
        Err(detail) => Err(AuthFailure::JwtToken(detail)),
        Ok(None) => Err(AuthFailure::Jwks),
        Ok(Some(key_id)) => match first_key_with_id(keys, key_id) {
            None => Err(AuthFailure::Jwks),
            Some(key) => match key.parameters {
                KeyParameters::Other => Err(AuthFailure::Jwks),
                KeyParameters::Rsa { modulus, exponent } => match rs256_token_subject(token, modulus@, exponent@) {
                    Err(detail) => Err(AuthFailure::JwtToken(detail)),
                    Ok(subject) => Ok(subject),
                },
            },
        },
    }
}

/// What authenticating a request gives: anonymous (no subject) without a token, the
/// header's refusal, or what verifying its token gives.
pub open spec fn authentication(headers: Map<Seq<char>, Seq<Seq<u8>>>, keys: Seq<PublicKey>) -> Result<Option<Seq<char>>, AuthFailure> {
    match header_token(headers) {
        Err(kind) => Err(kind),
        Ok(None) => Ok(None),
        Ok(Some(token)) => token_subject(token, keys),
    }
}

/// A token found in a header, seen as characters, and its failure as the contracts see it.
pub open spec fn found_token_view(res: Result<Option<&str>, AuthError>) -> Result<Option<Seq<char>>, AuthFailure> {
    match res {
        Ok(Some(token)) => Ok(Some(token@)),
        Ok(None) => Ok(None),
        Err(e) => Err(e.failure()),
    }
}

/// The token's subject.
#[derive(Debug, PartialEq, Eq, Clone)]
pub struct Subject(pub Option<String>);

/// An authentication outcome, the subject seen as characters, the failure as the contracts
/// see it.
pub open spec fn subject_view(res: Result<Subject, AuthError>) -> Result<Option<Seq<char>>, AuthFailure> {
    match res {
        Ok(subject) => Ok(opt_string_view(subject.0)),
        Err(e) => Err(e.failure()),
    }
}

/// Whether `s` holds `prefix` from character `at` on.
fn has_prefix_at(s: &str, len: usize, at: usize, prefix: &Vec<char>) -> (found: bool)
    requires
        len == s@.len(),
        at <= len,
    ensures
        found == starts_with(s@.skip(at as int), prefix@),
{
    let ghost rest = s@.skip(at as int);
    if prefix.len() > len - at {
        return false;
    }
    let mut j: usize = 0;
    while j < prefix.len()
        invariant
            len == s@.len(),
            at <= len,
            rest == s@.skip(at as int),
            prefix.len() <= len - at,
            j <= prefix.len(),
            forall|k: int| 0 <= k < j ==> s@[at + k] == prefix@[k],
        decreases prefix.len() - j,
    {
        if s.get_char(at + j) != prefix[j] {
            assert(rest.take(prefix.len() as int)[j as int] == s@[at + j]);
            return false;
        }
        j += 1;
    }
    assert(rest.take(prefix.len() as int) =~= prefix@);
    true
}

/// The token of an `Authorization` value: `None` when the value does not begin with
/// `Bearer `, else the value with all its leading `Bearer `s removed.
pub fn strip_bearer(value: &str) -> (token: Option<&str>)
    ensures
        match token {
            Some(t) => starts_with(value@, bearer()) && t@ == trim_start_matches(value@, bearer()),
            None => !starts_with(value@, bearer()),
        },
{
    let prefix: Vec<char> = vec!['B', 'e', 'a', 'r', 'e', 'r', ' '];
    assert(prefix@ =~= bearer());
    let n = value.unicode_len();
    assert(value@.skip(0) =~= value@);
    if !has_prefix_at(value, n, 0, &prefix) {
        return None;
    }
    let mut at: usize = 0;
    while has_prefix_at(value, n, at, &prefix)
        invariant
            n == value@.len(),
            at <= n,
            prefix@ == bearer(),
            trim_start_matches(value@, bearer()) == trim_start_matches(value@.skip(at as int), bearer()),
        decreases n - at,
    {
        assert(value@.skip(at as int).skip(7) =~= value@.skip(at + 7));
        at = at + prefix.len();
    }
    let token = value.substring_char(at, n);
    assert(token@ =~= value@.skip(at as int));
    Some(token)
}

/// If an authorization header is provided, verify it's the expected format and return the
/// token: `Ok(None)` without an `Authorization` header or when its first value is not
/// UTF-8, `InvalidAuthHeaderError` when that value does not begin with `Bearer `, else the
/// value with its leading `Bearer `s removed.
pub fn jwt_from_header<'a>(headers: &'a http::HeaderMap) -> (res: Result<Option<&'a str>, AuthError>)
    ensures
        found_token_view(res) == header_token(header_map_contents(*headers)),
{
    let name = "authorization";
    proof {
        reveal_strlit("authorization");
        assert(name@ =~= authorization());
    }
    let header = match header_first_value(headers, name) {
        Some(value) => value,
        None => return Ok(None),
    };
    let auth_header = match str_from_utf8(header) {
        Some(text) => text,
        None => return Ok(None),
    };
    assert(auth_header@ == decode_utf8(header@));
    match strip_bearer(auth_header) {
        Some(token) => Ok(Some(token)),
        None => Err(AuthError::InvalidAuthHeaderError),
    }
}

impl Subject {
    /// Verify a token against the key set and return its subject: the header's key id picks
    /// the key, whose RS256 signature must verify.
    pub fn from_token(token: &str, keys: &KeySet) -> (res: Result<Subject, AuthError>)
        ensures
            subject_view(res) == token_subject(token@, keys.keys@),
    {
        let key_id = match unverified_key_id(token) {
            Ok(Some(key_id)) => key_id,
            Ok(None) => return Err(AuthError::JWKSError),
            Err(e) => return Err(AuthError::JWTTokenError(e)),
        };
        let key = match keys.find(key_id.as_str()) {
            Some(key) => key,
            None => return Err(AuthError::JWKSError),
        };
        match &key.parameters {
            KeyParameters::Rsa { modulus, exponent } => {
                match rs256_verified_subject(token, modulus.as_slice(), exponent.as_slice()) {
                    Ok(subject) => Ok(Subject(subject)),
                    Err(e) => Err(AuthError::JWTTokenError(e)),
                }
            },
            KeyParameters::Other => Err(AuthError::JWKSError),
        }
    }

    /// Authenticate a request by its headers: without a bearer token it is anonymous
    /// (`Subject(None)`), a malformed `Authorization` header is refused, and a token is
    /// verified against the key set.
    pub fn from_headers(headers: &http::HeaderMap, keys: &KeySet) -> (res: Result<Subject, AuthError>)
        ensures
            subject_view(res) == authentication(header_map_contents(*headers), keys.keys@),
            header_token(header_map_contents(*headers)) matches Ok(Some(token))
                ==> subject_view(res) == token_subject(token, keys.keys@),
            header_token(header_map_contents(*headers)) == Ok::<Option<Seq<char>>, AuthFailure>(None)
                ==> res matches Ok(Subject(None)),
            header_token(header_map_contents(*headers)) matches Err(failure)
                ==> subject_view(res) == Err::<Option<Seq<char>>, AuthFailure>(failure),
    {
        match jwt_from_header(headers) {
            Ok(Some(token)) => Subject::from_token(token, keys),
            Ok(None) => Ok(Subject(None)),
            Err(e) => Err(e),
        }
    }
}

/// A request that carries a bearer token is answered by what verifying that token gives: a
/// token that fails verification refuses the request with that same failure, and the
/// subject is the verified token's.
pub proof fn law_request_answered_by_its_token(headers: Map<Seq<char>, Seq<Seq<u8>>>, keys: Seq<PublicKey>, token: Seq<char>)
    requires
        header_token(headers) == Ok::<Option<Seq<char>>, AuthFailure>(Some(token)),
    ensures
        authentication(headers, keys) == token_subject(token, keys),
        token_subject(token, keys) matches Err(failure)
            ==> authentication(headers, keys) == Err::<Option<Seq<char>>, AuthFailure>(failure),
{
}

/// A request is anonymous only when its header carries no bearer token, or carries one that
/// verifies and has no subject claim: a token that fails verification never makes it
/// anonymous.
pub proof fn law_anonymous_only_without_token_or_subject(headers: Map<Seq<char>, Seq<Seq<u8>>>, keys: Seq<PublicKey>)
    requires
        authentication(headers, keys) == Ok::<Option<Seq<char>>, AuthFailure>(None),
    ensures
        header_token(headers) == Ok::<Option<Seq<char>>, AuthFailure>(None)
            || (header_token(headers) matches Ok(Some(token))
                && token_subject(token, keys) == Ok::<Option<Seq<char>>, AuthFailure>(None)),
{
}

/// A request whose header refuses it is refused with that failure, whatever the key set.
pub proof fn law_header_refusal_refuses_request(headers: Map<Seq<char>, Seq<Seq<u8>>>, keys: Seq<PublicKey>, failure: AuthFailure)
    requires
        header_token(headers) == Err::<Option<Seq<char>>, AuthFailure>(failure),
    ensures
        authentication(headers, keys) == Err::<Option<Seq<char>>, AuthFailure>(failure),
{
}

/// A request without an `Authorization` header is anonymous: it is neither refused nor
/// given a subject, whatever the key set.
pub proof fn law_missing_header_is_anonymous(headers: Map<Seq<char>, Seq<Seq<u8>>>, keys: Seq<PublicKey>)
    requires
        !headers.dom().contains(authorization()),
    ensures
        authentication(headers, keys) == Ok::<Option<Seq<char>>, AuthFailure>(None),
{
}

/// A token taken from a header never begins with `Bearer `: every leading repetition is
/// removed.
pub proof fn law_token_has_no_bearer_prefix(value: Seq<char>)
    ensures
        !starts_with(trim_start_matches(value, bearer()), bearer()),
    decreases value.len(),
{
    if starts_with(value, bearer()) {
        law_token_has_no_bearer_prefix(value.skip(7));
    }
}

/// A header `Bearer <token>` gives back `<token>`, for every token that does not itself
/// begin with `Bearer `.
pub proof fn law_bearer_round_trip(headers: Map<Seq<char>, Seq<Seq<u8>>>, token: Seq<char>)
    requires
        !starts_with(token, bearer()),
        headers.dom().contains(authorization()),
        headers[authorization()].len() > 0,
        headers[authorization()][0] == encode_utf8(bearer() + token),
    ensures
        header_token(headers) == Ok::<Option<Seq<char>>, AuthFailure>(Some(token)),
{
    let text = bearer() + token;
    assert(decode_utf8(headers[authorization()][0]) == text);
    assert(text.take(7) =~= bearer());
    assert(text.skip(7) =~= token);
    assert(starts_with(text, bearer()));
    assert(trim_start_matches(token, bearer()) == token);
    assert(trim_start_matches(text, bearer()) == token);
}

/// A request is given a subject only when its header holds a bearer token whose header
/// names a key of the set, that key is an RSA key whose RS256 verification of the token
/// succeeds, and the verified claims carry that subject.
pub proof fn law_subject_only_from_verified_token(headers: Map<Seq<char>, Seq<Seq<u8>>>, keys: Seq<PublicKey>, subject: Seq<char>)
    requires
        authentication(headers, keys) == Ok::<Option<Seq<char>>, AuthFailure>(Some(subject)),
    ensures
        exists|token: Seq<char>, i: int|
            #![trigger jwt_header_key_id(token), keys[i]]
            header_token(headers) == Ok::<Option<Seq<char>>, AuthFailure>(Some(token))
                && 0 <= i < keys.len() && jwt_header_key_id(token) == Ok::<Option<Seq<char>>, Seq<char>>(Some(keys[i].key_id@))
                && (keys[i].parameters matches KeyParameters::Rsa { modulus, exponent }
                    && rs256_token_subject(token, modulus@, exponent@) == Ok::<Option<Seq<char>>, Seq<char>>(Some(subject))),
{
    let token = header_token(headers)->Ok_0->Some_0;
    let key_id = jwt_header_key_id(token)->Ok_0->Some_0;
    lemma_first_key_with_id(keys, key_id);
    let key = first_key_with_id(keys, key_id)->Some_0;
    let i = choose|i: int|
        0 <= i < keys.len() && keys[i] == key && key.key_id@ == key_id
            && forall|j: int| 0 <= j < i ==> (#[trigger] keys[j]).key_id@ != key_id;
    assert(jwt_header_key_id(token) == Ok::<Option<Seq<char>>, Seq<char>>(Some(keys[i].key_id@)));
}

} // verus!
