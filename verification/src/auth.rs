//! The token endpoint: the requests it takes, and how a refresh token is
//! turned into a new pair of tokens.

use crate::errors::{ResponseError, ResponseErrorView};
use crate::jwt::signed_jwt;
use crate::tokens::{
    claims_of_text, claims_text, expiry, lemma_claims_roundtrip, parse_scopes, refresh_held,
    requested_scopes, signable, validate_refresh_token, Config, Purpose, RefreshClaims, ScopeEnum,
    ScopeSet, Token, TokenValidationError,
};
use crate::types::Timestamp;
use vstd::prelude::*;

verus! {

/// A request for a token on the strength of an authorization code.
#[derive(Debug, PartialEq, Eq)]
pub struct AuthorizationCodeRequest {
    pub client_id: String,
    pub client_secret: String,
    pub code: String,
    pub redirect_uri: String,
    pub scope: String,
    pub audience: String,
}

/// A request for a token on the strength of a refresh token.
#[derive(Debug, PartialEq, Eq)]
pub struct RefreshTokenRequest {
    pub refresh_token: String,
    pub client_id: String,
    /// The names of the scopes asked for, separated by single spaces.
    pub scope: String,
}

/// A request for a token on the strength of the client's own credentials.
#[derive(Debug, PartialEq, Eq)]
pub struct ClientCredentialsRequest {
    pub client_id: String,
    pub client_secret: String,
    pub scope: String,
    pub audience: String,
}

/// A request for a token.
#[derive(Debug, PartialEq, Eq)]
pub enum TokenRequest {
    AuthorizationCode(AuthorizationCodeRequest),
    RefreshToken(RefreshTokenRequest),
    ClientCredentials(ClientCredentialsRequest),
}

/// The `grant_type` of a request.
pub open spec fn grant_type_of(r: TokenRequest) -> Seq<char> {
    match r {
        TokenRequest::AuthorizationCode(_) => "authorization_code"@,
        TokenRequest::RefreshToken(_) => "refresh_token"@,
        TokenRequest::ClientCredentials(_) => "client_credentials"@,
    }
}

impl TokenRequest {
    /// The `grant_type` under which the request travels.
    pub fn grant_type(&self) -> (r: &'static str)
        ensures
            r@ == grant_type_of(*self),
    {
        match self {
            TokenRequest::AuthorizationCode(_) => "authorization_code",
            TokenRequest::RefreshToken(_) => "refresh_token",
            TokenRequest::ClientCredentials(_) => "client_credentials",
        }
    }
}

/// A pair of tokens as it is handed to a client.
#[derive(Debug, PartialEq, Eq)]
pub struct TokenResult {
    pub access_token: String,
    pub refresh_token: String,
    pub id_token: String,
    pub token_type: String,
    /// Seconds until both tokens expire.
    pub expires_in: u64,
}

/// A pair of tokens as it comes from the token endpoint.
pub type RawToken = TokenResult;

/// The seconds from `now` to `expires_at`, none if that time has passed.
pub open spec fn seconds_left(expires_at: Timestamp, now: Timestamp) -> u64 {
    if expires_at > now {
        (expires_at - now) as u64
    } else {
        0
    }
}

impl TokenResult {
    /// The pair `token` as it is handed to a client at the time `now`: a
    /// bearer token without an identity token.
    pub fn from(token: Token, now: Timestamp) -> (r: Self)
        ensures
            r.access_token == token.access_token,
            r.refresh_token == token.refresh_token,
            r.id_token@ == Seq::<char>::empty(),
            r.token_type@ == "Bearer"@,
            r.expires_in == seconds_left(token.expires_at, now),
    {
        let expires_in: u64 = if token.expires_at > now {
            (token.expires_at as i128 - now as i128) as u64
        } else {
            0
        };
        TokenResult {
            access_token: token.access_token,
            refresh_token: token.refresh_token,
            id_token: String::new(),
            token_type: "Bearer".to_owned(),
            expires_in,
        }
    }
}

/// The scopes that a refresh grants to the holder of `held` who asks for
/// the scopes named in `scope`: those that are both asked for and held. A
/// scope that is asked for and not held is passed over in silence.
///
/// The refresh fails if a name denotes no scope, and if what is granted
/// lacks `openid` or `offline_access`.
pub open spec fn grant_of(held: ScopeSet, scope: Seq<char>) -> Result<ScopeSet, ResponseErrorView> {
    match requested_scopes(scope) {
        None => Err(ResponseErrorView::InternalServerError("Could not parse scopes"@)),
        Some(requested) => {
            let granted = requested.common(held);
            if !granted.openid {
                Err(ResponseErrorView::NotImplemented("We require openid scope for now."@))
            } else if !granted.offline_access {
                Err(
                    ResponseErrorView::NotImplemented(
                        "We require offline_access scope for now."@,
                    ),
                )
            } else {
                Ok(granted)
            }
        },
    }
}

/// Decides which scopes a refresh grants.
pub fn grant_scopes(claims: &RefreshClaims, scope: &str) -> (r: Result<ScopeSet, ResponseError>)
    ensures
        match grant_of(claims.scopes, scope@) {
            Ok(granted) => r matches Ok(g) && g == granted,
            Err(e) => r matches Err(error) && error@ == e,
        },
        r matches Ok(g) ==> (requested_scopes(scope@) matches Some(requested) && g@
            == requested@.intersect(claims.scopes@)),
{
    let requested: ScopeSet = match parse_scopes(scope) {
        Some(set) => set,
        None => {
            return Err(ResponseError::internal_error("Could not parse scopes"));
        },
    };
    let granted: ScopeSet = requested.intersection(&claims.scopes);
    if !granted.contains(ScopeEnum::Openid) {
        return Err(ResponseError::not_implemented("We require openid scope for now."));
    }
    if !granted.contains(ScopeEnum::OfflineAccess) {
        return Err(ResponseError::not_implemented("We require offline_access scope for now."));
    }
    Ok(granted)
}

/// Whether `raw` is, at the time `now`, the pair of tokens for `scopes` that
/// expires at `exp`.
pub open spec fn is_raw_pair(
    raw: TokenResult,
    secret: Seq<char>,
    scopes: ScopeSet,
    exp: u64,
    now: Timestamp,
) -> bool {
    &&& signed_jwt(secret, claims_text(Purpose::Access, exp, scopes)) == Some(raw.access_token@)
    &&& signed_jwt(secret, claims_text(Purpose::Refresh, exp, scopes)) == Some(
        raw.refresh_token@,
    )
    &&& raw.id_token@ == Seq::<char>::empty()
    &&& raw.token_type@ == "Bearer"@
    &&& raw.expires_in == seconds_left(exp as i64, now)
}

/// What a refresh request for the scopes `scope` comes to at the time `now`,
/// once the refresh token has passed and is found to hold `held`: the
/// failure of `grant_of` where nothing is granted; the pair for what is
/// granted, expiring ten minutes after `now`, where that time can be written
/// down and both tokens can be signed; and an internal failure otherwise.
pub open spec fn is_renewed(
    r: Result<TokenResult, ResponseError>,
    held: ScopeSet,
    scope: Seq<char>,
    secret: Seq<char>,
    now: Timestamp,
) -> bool {
    match grant_of(held, scope) {
        Err(e) => r matches Err(error) && error@ == e,
        Ok(granted) => if expiry(now) matches Some(exp) && signable(secret, granted, exp) {
            r matches Ok(raw) && is_raw_pair(raw, secret, granted, expiry(now)->0, now)
        } else {
            r matches Err(error) && error@ == ResponseErrorView::InternalServerError(
                "Could not create token"@,
            )
        },
    }
}

/// Answers a refresh request of the holder of `claims` at the time `now`.
///
/// The new pair carries the scopes that `grant_of` grants and expires ten
/// minutes after `now`. Where nothing is granted the failure is that of
/// `grant_of`; where the pair cannot be made it is an internal failure.
pub fn renew_with(
    claims: &RefreshClaims,
    request: &RefreshTokenRequest,
    config: &Config,
    now: Timestamp,
) -> (r: Result<TokenResult, ResponseError>)
    ensures
        is_renewed(r, claims.scopes, request.scope@, config.secret@, now),
{
    let granted: ScopeSet = match grant_scopes(claims, request.scope.as_str()) {
        Ok(set) => set,
        Err(e) => {
            return Err(e);
        },
    };
    match Token::at(config, &granted, now) {
        Ok(token) => Ok(TokenResult::from(token, now)),
        Err(_) => Err(ResponseError::internal_error("Could not create token")),
    }
}

/// Whether a request that names the scopes `scope` can be granted at all:
/// every name denotes a scope, and `openid` and `offline_access` are among
/// them.
pub open spec fn grantable(scope: Seq<char>) -> bool {
    requested_scopes(scope) matches Some(requested) && requested.openid
        && requested.offline_access
}

/// Whether `e` is a failure that a refresh request for the scopes `scope`
/// can meet with: the refresh token has not passed; a name denotes no scope;
/// what would be granted lacks `openid` or `offline_access`; or, for a
/// request that can be granted, the new pair could not be made.
pub open spec fn is_refusal(e: ResponseErrorView, scope: Seq<char>) -> bool {
    ||| e == ResponseErrorView::TokenExpired
    ||| match requested_scopes(scope) {
        None => e == ResponseErrorView::InternalServerError("Could not parse scopes"@),
        Some(requested) => {
            ||| e == ResponseErrorView::NotImplemented("We require openid scope for now."@)
            ||| requested.openid && e == ResponseErrorView::NotImplemented(
                "We require offline_access scope for now."@,
            )
            ||| requested.openid && requested.offline_access && e
                == ResponseErrorView::InternalServerError("Could not create token"@)
        },
    }
}

/// What a refresh request for the scopes `scope` comes to once its refresh
/// token has been checked: `TokenExpired` where the token did not pass,
/// whatever was wrong with it, and else what `is_renewed` says for the
/// scopes that the token holds.
pub open spec fn is_renewed_after(
    r: Result<TokenResult, ResponseError>,
    validated: Result<RefreshClaims, TokenValidationError>,
    scope: Seq<char>,
    secret: Seq<char>,
    now: Timestamp,
) -> bool {
    match validated {
        Err(_) => r matches Err(e) && e@ == ResponseErrorView::TokenExpired,
        Ok(claims) => is_renewed(r, claims.scopes, scope, secret, now),
    }
}

/// Answers a refresh request at the time `now`, given what the check of its
/// refresh token has brought.
///
/// A refresh token that did not pass is reported as expired, whatever was
/// wrong with it and whatever is asked for, and no pair is made. One that
/// passed is answered as `renew_with` answers its holder.
pub fn renew_after(
    validated: Result<RefreshClaims, TokenValidationError>,
    request: &RefreshTokenRequest,
    config: &Config,
    now: Timestamp,
) -> (r: Result<TokenResult, ResponseError>)
    ensures
        is_renewed_after(r, validated, request.scope@, config.secret@, now),
{
    match validated {
        Ok(claims) => renew_with(&claims, request, config, now),
        Err(_) => Err(ResponseError::TokenExpired),
    }
}

/// What a refresh request for the scopes `scope` comes to, whatever the
/// time, where `held` are the claims of a refresh token that the token of
/// the request carries, if it carries any.
///
/// The refresh token did not pass, and the request fails with
/// `TokenExpired`; or it passed, and the result is what `is_renewed` says
/// for the scopes it holds and for some time. A token that carries no claims
/// of a refresh token never passes. So a request that cannot be granted
/// fails whatever the token; a pair that comes back is good for ten minutes
/// and carries scopes that were asked for, among them `openid` and
/// `offline_access`; and a failure is one that `is_refusal` allows.
pub open spec fn is_renewal(
    r: Result<TokenResult, ResponseError>,
    held: Option<RefreshClaims>,
    scope: Seq<char>,
    secret: Seq<char>,
) -> bool {
    &&& (r matches Err(e) && e@ == ResponseErrorView::TokenExpired) || (held matches Some(claims)
        && exists|now: Timestamp| is_renewed(r, claims.scopes, scope, secret, now))
    &&& !grantable(scope) ==> r is Err
    &&& match r {
        Ok(raw) => raw.expires_in == 600 && exists|granted: ScopeSet, exp: u64, now: Timestamp|
            #![trigger is_raw_pair(raw, secret, granted, exp, now)]
            {
                &&& is_raw_pair(raw, secret, granted, exp, now)
                &&& expiry(now) == Some(exp)
                &&& granted.openid && granted.offline_access
                &&& requested_scopes(scope) matches Some(requested) && granted@.subset_of(
                    requested@,
                )
            },
        Err(e) => is_refusal(e@, scope),
    }
}

/// Answers a refresh request: checks the refresh token and hands over to
/// `renew_after` with the time of the machine.
///
/// Whether a token that carries the claims of a refresh token passes is for
/// the signing library and the clock to say; any other token is reported as
/// expired.
pub fn renew_token(request: &RefreshTokenRequest, config: &Config) -> (r: Result<
    TokenResult,
    ResponseError,
>)
    ensures
        is_renewal(
            r,
            refresh_held(config.secret@, request.refresh_token@),
            request.scope@,
            config.secret@,
        ),
{
    let validated: Result<RefreshClaims, TokenValidationError> = validate_refresh_token(
        request.refresh_token.as_str(),
        config,
    );
    let ghost held = match validated {
        Ok(claims) => Some(claims.scopes),
        Err(_) => None,
    };
    let now: i64 = crate::jwt::unix_now();
    let r = renew_after(validated, request, config, now);
    proof {
        if held is Some {
            let scopes = held->0;
            assert(is_renewed(r, scopes, request.scope@, config.secret@, now));
            if r is Ok {
                let granted = grant_of(scopes, request.scope@)->Ok_0;
                let exp = expiry(now)->0;
                let requested = requested_scopes(request.scope@)->0;
                assert(granted@ =~= requested@.intersect(scopes@));
                assert(is_raw_pair(r->Ok_0, config.secret@, granted, exp, now));
            }
        }
    }
    r
}

/// Answers a request for a token. Only refresh requests are supported: one
/// is answered as `renew_token` answers it, and any other is turned down.
pub fn token_handler(body: &TokenRequest, config: &Config) -> (r: Result<
    TokenResult,
    ResponseError,
>)
    ensures
        match *body {
            TokenRequest::RefreshToken(request) => is_renewal(
                r,
                refresh_held(config.secret@, request.refresh_token@),
                request.scope@,
                config.secret@,
            ),
            _ => r matches Err(error) && error@ == ResponseErrorView::NotImplemented(
                "We only support refresh_token grant type for now."@,
            ),
        },
{
    match body {
        TokenRequest::RefreshToken(request) => renew_token(request, config),
        TokenRequest::ClientCredentials(_) | TokenRequest::AuthorizationCode(_) => Err(
            ResponseError::not_implemented("We only support refresh_token grant type for now."),
        ),
    }
}

/// The tokens of a pair that a refresh has brought state the scopes that
/// were both asked for and held, and no others: each is the signed text of
/// claims for exactly those scopes, and that text is read as those claims.
pub proof fn lemma_refresh_scopes(
    r: Result<TokenResult, ResponseError>,
    held: ScopeSet,
    scope: Seq<char>,
    secret: Seq<char>,
    now: Timestamp,
)
    requires
        is_renewed(r, held, scope, secret, now),
        r is Ok,
    ensures
        requested_scopes(scope) matches Some(requested) && expiry(now) matches Some(exp)
            && exists|granted: ScopeSet|
            #![trigger claims_text(Purpose::Access, exp, granted)]
            {
                &&& granted@ == requested@.intersect(held@)
                &&& signed_jwt(secret, claims_text(Purpose::Access, exp, granted)) == Some(
                    r->Ok_0.access_token@,
                )
                &&& signed_jwt(secret, claims_text(Purpose::Refresh, exp, granted)) == Some(
                    r->Ok_0.refresh_token@,
                )
                &&& claims_of_text(claims_text(Purpose::Access, exp, granted)) == Some(
                    (Purpose::Access, exp, granted),
                )
                &&& claims_of_text(claims_text(Purpose::Refresh, exp, granted)) == Some(
                    (Purpose::Refresh, exp, granted),
                )
            },
{
    lemma_grant_within(held, scope);
    let granted = grant_of(held, scope)->Ok_0;
    let exp = expiry(now)->0;
    lemma_claims_roundtrip(Purpose::Access, exp, granted);
    lemma_claims_roundtrip(Purpose::Refresh, exp, granted);
}

/// A refresh never grants a scope that was not held or not asked for.
pub proof fn lemma_grant_within(held: ScopeSet, scope: Seq<char>)
    ensures
        grant_of(held, scope) matches Ok(granted) ==> {
            &&& requested_scopes(scope) matches Some(requested)
            &&& granted@ == requested@.intersect(held@)
            &&& granted@.subset_of(held@)
            &&& granted@.subset_of(requested@)
            &&& granted@.contains(ScopeEnum::Openid)
            &&& granted@.contains(ScopeEnum::OfflineAccess)
        },
{
    if grant_of(held, scope) is Ok {
        let requested = requested_scopes(scope)->0;
        let granted = requested.common(held);
        assert(granted@ =~= requested@.intersect(held@));
    }
}

} // verus!
