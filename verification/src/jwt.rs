//! Signing and checking of tokens, and the clock: what the token service
//! takes on trust from outside.

use vstd::prelude::*;

verus! {

/// Why `jsonwebtoken` does not sign or turns a token down.
#[verifier::external_type_specification]
#[verifier::external_body]
pub struct ExJwtError(jsonwebtoken::errors::Error);

/// What `jsonwebtoken::encode` makes of the claims written as the JSON text
/// `claims`, with the default header and the secret `secret`: the token, or
/// nothing where it does not sign them.
pub uninterp spec fn signed_jwt(secret: Seq<char>, claims: Seq<char>) -> Option<Seq<char>>;

/// Signs claims with `jsonwebtoken::encode`, under the default header
/// (HS256) and with `secret` as the HMAC key. The claims are handed over as
/// the JSON value that the text `claims` denotes.
///
/// Trusted: that whether a token comes back, and which, depends on nothing
/// but the secret and the text of the claims.
#[verifier::external_body]
pub(crate) fn sign(secret: &str, claims: &str) -> (r: Result<String, jsonwebtoken::errors::Error>)
    ensures
        match signed_jwt(secret@, claims@) {
            Some(text) => r matches Ok(token) && token@ == text,
            None => r is Err,
        },
{
    let value: serde_json::Value = serde_json::from_str(claims)?;
    let key = jsonwebtoken::EncodingKey::from_secret(secret.as_bytes());
    jsonwebtoken::encode(&jsonwebtoken::Header::default(), &value, &key)
}

/// The claims that a token carries under the secret `secret`, as the JSON
/// text that `serde_json` writes: what `jsonwebtoken::decode` hands back
/// whenever the token passes. `None` for a token that passes at no time: one
/// that is no token, or whose signature is not that of the secret.
pub uninterp spec fn checked_jwt(secret: Seq<char>, token: Seq<char>) -> Option<Seq<char>>;

/// Checks a token with `jsonwebtoken::decode`: the signature under HS256
/// with `secret` as the HMAC key, and the expiry against the clock of the
/// machine, with no leeway. Returns the claims as JSON text, as `serde_json`
/// writes them: without blanks and with the keys of an object in
/// alphabetical order.
///
/// Trusted: that the claims which come back depend on nothing but the secret
/// and the token. Whether a token passes depends on the time of the call as
/// well, and nothing is said of it. On a machine whose clock stands before
/// 1970 the call does not return. A leeway other than none is left out:
/// taken from a clock that shows less, it would overflow.
#[verifier::external_body]
pub(crate) fn verify(secret: &str, token: &str, leeway: u64) -> (r: Result<
    String,
    jsonwebtoken::errors::Error,
>)
    requires
        leeway == 0,
    ensures
        r matches Ok(text) ==> checked_jwt(secret@, token@) == Some(text@),
{
    let key = jsonwebtoken::DecodingKey::from_secret(secret.as_bytes());
    let mut validation = jsonwebtoken::Validation::new(jsonwebtoken::Algorithm::HS256);
    validation.leeway = leeway;
    let data = jsonwebtoken::decode::<serde_json::Value>(token, &key, &validation)?;
    Ok(data.claims.to_string())
}

/// The time of the machine in seconds since the epoch, from
/// `chrono::Utc::now`.
///
/// Trusted: nothing about the result. On a machine whose clock stands before
/// 1970 the call does not return.
#[verifier::external_body]
pub(crate) fn unix_now() -> (r: i64)
{
    chrono::Utc::now().timestamp()
}

} // verus!
