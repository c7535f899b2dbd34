//! Tokens and a client for trying a server out on the machine it runs on.

use crate::auth::TokenResult;
use crate::client::{is_built, normal_url, Client, Config, ConfigBuildError, Token};
use crate::jwt::signed_jwt;
use crate::tokens::{claims_text, expiry, signable, Purpose, ScopeSet};
use crate::types::Timestamp;
use vstd::prelude::*;

verus! {

/// The configuration of the tokens of a server that is tried out. It has to
/// match that of the server.
pub fn get_token_config() -> (r: crate::tokens::Config)
    ensures
        r.secret@ == "mom-said-yes"@,
{
    crate::tokens::Config { secret: "mom-said-yes".to_owned() }
}

/// Whether `token` is the fresh pair for `scopes` that expires at `exp`,
/// under the secret of a server that is tried out: both tokens are the
/// signed claims of their purpose, and the pair is due for renewal from the
/// moment it was made, ten minutes before it expires.
pub open spec fn is_test_token_at(token: Token, scopes: ScopeSet, exp: u64) -> bool {
    &&& signed_jwt("mom-said-yes"@, claims_text(Purpose::Access, exp, scopes)) == Some(
        token.access_token@,
    )
    &&& signed_jwt("mom-said-yes"@, claims_text(Purpose::Refresh, exp, scopes)) == Some(
        token.refresh_token@,
    )
    &&& token.expires_at == exp
    &&& token.renew_at + 600 == exp
}

/// Whether `token` is a fresh pair for `scopes` under the secret of a server
/// that is tried out, whenever it expires.
pub open spec fn is_test_token(token: Token, scopes: ScopeSet) -> bool {
    exists|exp: u64| is_test_token_at(token, scopes, exp)
}

/// Whether `r` is what asking at `now` for a pair for `scopes` comes to: the
/// fresh pair that expires ten minutes later, where the clock is within
/// reach and both tokens can be signed, and nothing otherwise.
pub open spec fn is_test_token_of(r: Option<Token>, scopes: ScopeSet, now: Timestamp) -> bool {
    if now <= i64::MAX - 9_223_372_036_854_775 && expiry(now) is Some && signable(
        "mom-said-yes"@,
        scopes,
        expiry(now)->0,
    ) {
        r matches Some(token) && is_test_token_at(token, scopes, expiry(now)->0)
    } else {
        r is None
    }
}

/// Whether `client` is a client for a server on this machine.
pub open spec fn is_local_client(client: Client) -> bool {
    &&& normal_url("http://localhost:4080/"@) == Some(client.auth_url@)
    &&& normal_url("http://localhost:4080/"@) == Some(client.owner_url@)
    &&& normal_url("ws://localhost:4080/streaming/"@) == Some(client.streaming_url@)
}

/// A pair of tokens for the given scopes, made at `now`. `None` if the pair
/// cannot be made.
pub fn token_at(scopes: &ScopeSet, now: Timestamp) -> (r: Option<Token>)
    ensures
        is_test_token_of(r, *scopes, now),
{
    let config = get_token_config();
    if now > 0x7fff_ffff_ffff_ffff - 9_223_372_036_854_775 {
        return None;
    }
    match crate::tokens::Token::at(&config, scopes, now) {
        Ok(token) => {
            let raw: TokenResult = TokenResult::from(token, now);
            Some(Token::from(raw, now))
        },
        Err(_) => None,
    }
}

/// A pair of tokens for the given scopes, made now. `None` if the pair
/// cannot be made.
///
/// The time is that of the machine: what comes back is what `token_at`
/// gives for some time. A pair that comes back is a fresh pair for exactly
/// these scopes.
pub fn get_token_with_scopes(scopes: &ScopeSet) -> (r: Option<Token>)
    ensures
        exists|now: Timestamp| is_test_token_of(r, *scopes, now),
        r matches Some(token) ==> is_test_token(token, *scopes),
{
    let now: i64 = crate::jwt::unix_now();
    let r = token_at(scopes, now);
    assert(is_test_token_of(r, *scopes, now));
    r
}

/// A pair of tokens for every scope, made now. `None` if the pair cannot be
/// made.
///
/// The time is that of the machine: what comes back is what `token_at`
/// gives for the set of all scopes and for some time.
pub fn get_token_for_all_scopes() -> (r: Option<Token>)
    ensures
        exists|now: Timestamp| is_test_token_of(r, ScopeSet::every(), now),
        r matches Some(token) ==> is_test_token(token, ScopeSet::every()),
{
    let scopes: ScopeSet = ScopeSet::all();
    get_token_with_scopes(&scopes)
}

/// A client with the given tokens for a server on this machine: what
/// building one for the addresses of this machine comes to.
pub fn get_client_with_token(token: Token) -> (r: Result<Client, ConfigBuildError>)
    ensures
        is_built(
            r,
            "http://localhost:4080/"@,
            "http://localhost:4080/"@,
            "ws://localhost:4080/streaming/"@,
            token,
        ),
        r matches Ok(client) ==> is_local_client(client) && client.token == token,
{
    Config::new().auth_url("http://localhost:4080/").owner_url(
        "http://localhost:4080/",
    ).streaming_url("ws://localhost:4080/streaming/").token(token).build()
}

/// Whether `r` is what asking at `now` for a client with tokens for every
/// scope comes to: a client for this machine that holds the fresh pair which
/// `token_at` gives, where there is such a pair and the addresses of this
/// machine are URLs, and nothing otherwise.
pub open spec fn is_test_client_of(r: Option<Client>, now: Timestamp) -> bool {
    if now <= i64::MAX - 9_223_372_036_854_775 && expiry(now) is Some && signable(
        "mom-said-yes"@,
        ScopeSet::every(),
        expiry(now)->0,
    ) && normal_url("http://localhost:4080/"@) is Some && normal_url(
        "ws://localhost:4080/streaming/"@,
    ) is Some {
        r matches Some(client) && is_local_client(client) && is_test_token_at(
            client.token,
            ScopeSet::every(),
            expiry(now)->0,
        )
    } else {
        r is None
    }
}

/// A client with tokens for every scope for a server on this machine.
/// `None` if the tokens or the client cannot be made.
///
/// The time is that of the machine: what comes back is what
/// `is_test_client_of` says for some time.
pub fn get_client() -> (r: Option<Client>)
    ensures
        exists|now: Timestamp| is_test_client_of(r, now),
        r matches Some(client) ==> is_local_client(client) && is_test_token(
            client.token,
            ScopeSet::every(),
        ),
{
    let token: Option<Token> = get_token_for_all_scopes();
    let ghost now = choose|now: Timestamp| is_test_token_of(token, ScopeSet::every(), now);
    let r = match token {
        Some(token) => match get_client_with_token(token) {
            Ok(client) => Some(client),
            Err(_) => None,
        },
        None => None,
    };
    assert(is_test_client_of(r, now));
    r
}

} // verus!
