//! The client side: where the three interfaces are, the tokens to call them
//! with, what to send, and what to make of what comes back.

use crate::auth::{RefreshTokenRequest, TokenRequest, TokenResult};
use crate::number::int_text;
use crate::streaming::{
    decode_line, deserialize_fields, field_name, serialize_field_names, ErrorType,
    FromServerStreamingMessage, StreamingData, StreamingFields, ToServerStreamingMessage,
};
use crate::text::join;
use crate::types::{parse_id, Timestamp, VehicleGuid, VehicleId};
use vstd::prelude::*;
use vstd::string::*;

verus! {

/// Why `url::Url::parse` turns a text down.
#[verifier::external_type_specification]
#[verifier::external_body]
pub struct ExUrlParseError(url::ParseError);

/// What `url::Url::parse` makes of a text: the text of the URL, or nothing
/// where it turns the text down.
pub uninterp spec fn normal_url(text: Seq<char>) -> Option<Seq<char>>;

/// Reads a URL with `url::Url::parse` and writes it out again.
///
/// Trusted: that whether a URL comes back, and which, depends on nothing but
/// the text.
#[verifier::external_body]
fn parse_url(text: &str) -> (r: Result<String, url::ParseError>)
    ensures
        match normal_url(text@) {
            Some(written) => r matches Ok(url) && url@ == written,
            None => r is Err,
        },
{
    url::Url::parse(text).map(String::from)
}

/// A pair of tokens with the time at which it should be renewed.
#[derive(Debug, PartialEq, Eq)]
pub struct Token {
    pub access_token: String,
    pub refresh_token: String,
    /// When to renew the pair, in seconds since the epoch.
    pub renew_at: Timestamp,
    /// When the pair expires, in seconds since the epoch.
    pub expires_at: Timestamp,
}

/// The longest time in seconds that a pair is taken to be good for. A pair
/// that claims more is taken to be good for a minute.
pub const LONGEST_LIFETIME: u64 = 9_223_372_036_854_775;

/// The seconds that a pair which claims `seconds` is taken to be good for.
pub open spec fn lifetime(seconds: u64) -> int {
    if seconds <= 9_223_372_036_854_775 {
        seconds as int
    } else {
        60
    }
}

/// The seconds after which a pair that claims `expires_in` is renewed: an
/// hour before it expires, and at once if it is good for less.
pub open spec fn renew_in(expires_in: u64) -> int {
    if expires_in >= 3600 {
        lifetime((expires_in - 3600) as u64)
    } else {
        0
    }
}

impl Token {
    /// The pair `token`, which was handed out at the time `now`.
    pub fn from(token: TokenResult, now: Timestamp) -> (r: Self)
        requires
            now <= i64::MAX - 9_223_372_036_854_775,
        ensures
            r.access_token == token.access_token,
            r.refresh_token == token.refresh_token,
            r.expires_at == now + lifetime(token.expires_in),
            r.renew_at == now + renew_in(token.expires_in),
    {
        let renew: u64 = if token.expires_in >= 3600 {
            token.expires_in - 3600
        } else {
            0
        };
        let expires_in: i64 = if token.expires_in <= LONGEST_LIFETIME {
            token.expires_in as i64
        } else {
            60
        };
        let renew_in: i64 = if renew <= LONGEST_LIFETIME {
            renew as i64
        } else {
            60
        };
        Token {
            access_token: token.access_token,
            refresh_token: token.refresh_token,
            renew_at: now + renew_in,
            expires_at: now + expires_in,
        }
    }

    /// Whether the pair is due for renewal at the time `now`.
    pub fn is_due(&self, now: Timestamp) -> (r: bool)
        ensures
            r == (now > self.renew_at || now > self.expires_at),
    {
        now > self.renew_at || now > self.expires_at
    }
}

/// The mark of a configuration that holds no tokens yet.
#[derive(Debug, PartialEq, Eq)]
pub struct NoTokens {}

/// The mark of a configuration that holds tokens.
#[derive(Debug, PartialEq, Eq)]
pub struct HasToken {
    pub token: Token,
}

/// Where the interfaces are, as far as it has been said, and the tokens if
/// `T` is `HasToken`.
#[derive(Debug, PartialEq, Eq)]
pub struct Config<T> {
    pub auth_url: Option<String>,
    pub owner_url: Option<String>,
    pub streaming_url: Option<String>,
    pub extra: T,
}

/// Why a configuration makes no client.
#[derive(Debug)]
pub enum ConfigBuildError {
    /// One of the addresses is no URL.
    UrlParseError(url::ParseError),
}

impl Config<NoTokens> {
    /// A configuration that says nothing yet.
    pub fn new() -> (r: Self)
        ensures
            r.auth_url is None,
            r.owner_url is None,
            r.streaming_url is None,
    {
        Config { auth_url: None, owner_url: None, streaming_url: None, extra: NoTokens {  } }
    }

    /// The configuration with the tokens added.
    pub fn token(self, token: Token) -> (r: Config<HasToken>)
        ensures
            r.auth_url == self.auth_url,
            r.owner_url == self.owner_url,
            r.streaming_url == self.streaming_url,
            r.extra.token == token,
    {
        Config {
            auth_url: self.auth_url,
            owner_url: self.owner_url,
            streaming_url: self.streaming_url,
            extra: HasToken { token },
        }
    }
}

impl<T> Config<T> {
    /// The configuration with the address of the token endpoint set.
    pub fn auth_url(self, auth_url: &str) -> (r: Self)
        ensures
            r.auth_url matches Some(url) && url@ == auth_url@,
            r.owner_url == self.owner_url,
            r.streaming_url == self.streaming_url,
            r.extra == self.extra,
    {
        let mut config = self;
        config.auth_url = Some(auth_url.to_owned());
        config
    }

    /// The configuration with the address of the owner interface set.
    pub fn owner_url(self, owner_url: &str) -> (r: Self)
        ensures
            r.owner_url matches Some(url) && url@ == owner_url@,
            r.auth_url == self.auth_url,
            r.streaming_url == self.streaming_url,
            r.extra == self.extra,
    {
        let mut config = self;
        config.owner_url = Some(owner_url.to_owned());
        config
    }

    /// The configuration with the address of the streaming interface set.
    pub fn streaming_url(self, streaming_url: &str) -> (r: Self)
        ensures
            r.streaming_url matches Some(url) && url@ == streaming_url@,
            r.auth_url == self.auth_url,
            r.owner_url == self.owner_url,
            r.extra == self.extra,
    {
        let mut config = self;
        config.streaming_url = Some(streaming_url.to_owned());
        config
    }
}

/// The address that is used where the configuration names none.
pub open spec fn or_default(url: Option<String>, default: Seq<char>) -> Seq<char> {
    match url {
        Some(u) => u@,
        None => default,
    }
}

fn address(url: &Option<String>, default: &str) -> (r: Result<String, ConfigBuildError>)
    ensures
        match normal_url(or_default(*url, default@)) {
            Some(written) => r matches Ok(u) && u@ == written,
            None => r matches Err(ConfigBuildError::UrlParseError(_)),
        },
{
    let parsed: Result<String, url::ParseError> = match url {
        Some(u) => parse_url(u.as_str()),
        None => parse_url(default),
    };
    match parsed {
        Ok(u) => Ok(u),
        Err(e) => Err(ConfigBuildError::UrlParseError(e)),
    }
}

/// Whether `r` is what building a client for the three addresses and the
/// tokens comes to: the client that holds each address as the URL library
/// writes it, if all three are URLs, and else the failure to read one.
pub open spec fn is_built(
    r: Result<Client, ConfigBuildError>,
    auth_url: Seq<char>,
    owner_url: Seq<char>,
    streaming_url: Seq<char>,
    token: Token,
) -> bool {
    match (normal_url(auth_url), normal_url(owner_url), normal_url(streaming_url)) {
        (Some(auth), Some(owner), Some(streaming)) => r matches Ok(client) && client.auth_url@
            == auth && client.owner_url@ == owner && client.streaming_url@ == streaming
            && client.token == token,
        _ => r matches Err(ConfigBuildError::UrlParseError(_)),
    }
}

impl Config<HasToken> {
    /// The client for the configured addresses, each read as a URL. An
    /// address that was not set is that of the real service.
    pub fn build(self) -> (r: Result<Client, ConfigBuildError>)
        ensures
            is_built(
                r,
                or_default(self.auth_url, "https://auth.tesla.com/"@),
                or_default(self.owner_url, "https://owner-api.teslamotors.com/"@),
                or_default(self.streaming_url, "wss://streaming.vn.teslamotors.com/streaming/"@),
                self.extra.token,
            ),
    {
        let auth_url: Result<String, ConfigBuildError> = address(
            &self.auth_url,
            "https://auth.tesla.com/",
        );
        let owner_url: Result<String, ConfigBuildError> = address(
            &self.owner_url,
            "https://owner-api.teslamotors.com/",
        );
        let streaming_url: Result<String, ConfigBuildError> = address(
            &self.streaming_url,
            "wss://streaming.vn.teslamotors.com/streaming/",
        );
        match (auth_url, owner_url, streaming_url) {
            (Ok(auth_url), Ok(owner_url), Ok(streaming_url)) => Ok(
                Client { auth_url, owner_url, streaming_url, token: self.extra.token },
            ),
            (Err(e), _, _) => Err(e),
            (_, Err(e), _) => Err(e),
            (_, _, Err(e)) => Err(e),
        }
    }
}

/// A client: the addresses of the three interfaces and the tokens.
#[derive(Debug, PartialEq, Eq)]
pub struct Client {
    pub auth_url: String,
    pub owner_url: String,
    pub streaming_url: String,
    pub token: Token,
}

/// The scopes that a client asks for when it renews its tokens.
pub open spec fn renewal_scope() -> Seq<char> {
    "openid offline_access vehicle_device_data vehicle_cmds vehicle_charging_cmds energy_device_data energy_cmds"@
}

impl Client {
    /// The tokens.
    pub fn token(&self) -> (r: &Token)
        ensures
            r == &self.token,
    {
        &self.token
    }

    /// Whether the tokens are due for renewal at the time `now`.
    pub fn needs_refresh(&self, now: Timestamp) -> (r: bool)
        ensures
            r == (now > self.token.renew_at || now > self.token.expires_at),
    {
        self.token.is_due(now)
    }

    /// The address of the token endpoint.
    pub fn token_url(&self) -> (r: String)
        ensures
            r@ == self.auth_url@ + "oauth2/v3/token"@,
    {
        let mut url: String = self.auth_url.as_str().to_owned();
        url.append("oauth2/v3/token");
        url
    }

    /// The request that renews the tokens: the refresh token, as the owner
    /// application, for every scope but that for user data.
    pub fn refresh_request(&self) -> (r: TokenRequest)
        ensures
            r matches TokenRequest::RefreshToken(request) && request.refresh_token@
                == self.token.refresh_token@ && request.client_id@ == "ownerapi"@
                && request.scope@ == renewal_scope(),
    {
        TokenRequest::RefreshToken(
            RefreshTokenRequest {
                refresh_token: self.token.refresh_token.as_str().to_owned(),
                client_id: "ownerapi".to_owned(),
                scope: "openid offline_access vehicle_device_data vehicle_cmds vehicle_charging_cmds energy_device_data energy_cmds".to_owned(),
            },
        )
    }

    /// The address of the list of vehicles.
    pub fn vehicles_url(&self) -> (r: String)
        ensures
            r@ == self.owner_url@ + "api/1/vehicles"@,
    {
        let mut url: String = self.owner_url.as_str().to_owned();
        url.append("api/1/vehicles");
        url
    }

    /// The address of the record of a vehicle.
    pub fn vehicle_url(&self, id: VehicleId) -> (r: String)
        ensures
            r@ == self.owner_url@ + "api/1/vehicles/"@ + int_text(id.0 as int),
    {
        let mut url: String = self.owner_url.as_str().to_owned();
        url.append("api/1/vehicles/");
        let number: String = id.to_string();
        url.append(number.as_str());
        url
    }

    /// The address of the data of a vehicle.
    pub fn vehicle_data_url(&self, id: VehicleId) -> (r: String)
        ensures
            r@ == self.owner_url@ + "api/1/vehicles/"@ + int_text(id.0 as int) + "/vehicle_data"@,
    {
        let mut url: String = self.vehicle_url(id);
        url.append("/vehicle_data");
        url
    }

    /// The address at which a vehicle is woken up.
    pub fn wake_up_url(&self, id: VehicleId) -> (r: String)
        ensures
            r@ == self.owner_url@ + "api/1/vehicles/"@ + int_text(id.0 as int) + "/wake_up"@,
    {
        let mut url: String = self.vehicle_url(id);
        url.append("/wake_up");
        url
    }

    /// The address at which the state of a vehicle's simulator is set.
    pub fn simulate_url(&self, id: VehicleId) -> (r: String)
        ensures
            r@ == self.owner_url@ + "api/1/vehicles/"@ + int_text(id.0 as int) + "/simulate"@,
    {
        let mut url: String = self.vehicle_url(id);
        url.append("/simulate");
        url
    }

    /// The message that subscribes to the samples of a vehicle for the given
    /// fields.
    pub fn subscribe_message(&self, id: VehicleGuid, fields: &Vec<StreamingFields>) -> (r:
        ToServerStreamingMessage)
        ensures
            r matches ToServerStreamingMessage::DataSubscribeOauth { token, value, tag } && token@
                == self.token.access_token@ && value@ == join(
                Seq::new(fields@.len(), |i: int| field_name(fields@[i])),
                ',',
            ) && tag@ == int_text(id.0 as int),
    {
        ToServerStreamingMessage::DataSubscribeOauth {
            token: self.token.access_token.as_str().to_owned(),
            value: serialize_field_names(fields),
            tag: id.to_string(),
        }
    }
}

/// What a client makes of a message of the server, for a subscription with
/// the fields `fields`.
///
/// A greeting means nothing. An update is a sample if its line can be read,
/// and nothing otherwise. An error ends the subscription; what comes back
/// then says who is to blame and quotes the message.
pub open spec fn outcome_of(
    msg: FromServerStreamingMessage,
    fields: Seq<StreamingFields>,
) -> Result<
    Option<crate::streaming::StreamingDataView>,
    Seq<char>,
> {
    match msg {
        FromServerStreamingMessage::ControlHello { .. } => Ok(None),
        FromServerStreamingMessage::DataUpdate { tag, value } => match decode_line(
            VehicleGuid(parse_id(tag@)->0),
            value@,
            fields,
        ) {
            Ok(d) => Ok(Some(d)),
            Err(_) => Ok(None),
        },
        FromServerStreamingMessage::DataError(e) => Err(
            (match e.error_type {
                ErrorType::VehicleDisconnected => "Vehicle disconnected: "@,
                ErrorType::VehicleError => "Vehicle error: "@,
                ErrorType::ClientError => "Client error: "@,
            }) + e.value@,
        ),
    }
}

/// Decides what to make of a message of the server.
///
/// The tag of an update has to name a vehicle.
pub fn process_message(
    msg: &FromServerStreamingMessage,
    fields: &Vec<StreamingFields>,
) -> (r: Result<
    Option<StreamingData>,
    String,
>)
    requires
        msg matches FromServerStreamingMessage::DataUpdate { tag, .. } ==> parse_id(tag@) is Some,
    ensures
        match outcome_of(*msg, fields@) {
            Ok(Some(d)) => r matches Ok(Some(data)) && data@ == d,
            Ok(None) => r matches Ok(None),
            Err(text) => r matches Err(e) && e@ == text,
        },
{
    match msg {
        FromServerStreamingMessage::ControlHello { .. } => Ok(None),
        FromServerStreamingMessage::DataUpdate { tag, value } => {
            let vehicle_id: VehicleGuid = VehicleGuid::from_str(tag.as_str()).unwrap();
            match deserialize_fields(vehicle_id, value.as_str(), fields) {
                Ok(data) => Ok(Some(data)),
                Err(_) => Ok(None),
            }
        },
        FromServerStreamingMessage::DataError(e) => {
            let mut text: String = match e.error_type {
                ErrorType::VehicleDisconnected => "Vehicle disconnected: ".to_owned(),
                ErrorType::VehicleError => "Vehicle error: ".to_owned(),
                ErrorType::ClientError => "Client error: ".to_owned(),
            };
            text.append(e.value.as_str());
            Err(text)
        },
    }
}

} // verus!
