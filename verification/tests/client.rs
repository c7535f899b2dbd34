use fake_luxury_api::auth::{TokenRequest, TokenResult};
use fake_luxury_api::client::{process_message, Client, Config, ConfigBuildError, Token};
use fake_luxury_api::decimal::Decimal;
use fake_luxury_api::streaming::{
    DataError, ErrorType, FromServerStreamingMessage, StreamingData, StreamingFields,
    ToServerStreamingMessage,
};
use fake_luxury_api::testing::{
    get_client, get_client_with_token, get_token_config, get_token_for_all_scopes,
    get_token_with_scopes,
};
use fake_luxury_api::tokens::{validate_access_token, validate_refresh_token, ScopeEnum, ScopeSet};
use fake_luxury_api::types::{VehicleGuid, VehicleId};

fn raw(expires_in: u64) -> TokenResult {
    TokenResult {
        access_token: "a".to_string(),
        refresh_token: "r".to_string(),
        id_token: String::new(),
        token_type: "Bearer".to_string(),
        expires_in,
    }
}

fn token() -> Token {
    Token::from(raw(600), 1_700_000_000)
}

fn client() -> Client {
    Config::new()
        .auth_url("http://localhost:4080/")
        .owner_url("http://localhost:4080/")
        .streaming_url("ws://localhost:4080/streaming/")
        .token(token())
        .build()
        .unwrap()
}

#[test]
fn a_pair_is_renewed_an_hour_before_it_expires() {
    let now = 1_700_000_000;
    let token = Token::from(raw(7_200), now);
    assert_eq!(token.access_token, "a");
    assert_eq!(token.refresh_token, "r");
    assert_eq!(token.expires_at, now + 7_200);
    assert_eq!(token.renew_at, now + 3_600);
    // A pair that is good for less than an hour is renewed at once.
    let token = Token::from(raw(600), now);
    assert_eq!(token.expires_at, now + 600);
    assert_eq!(token.renew_at, now);
    let token = Token::from(raw(3_600), now);
    assert_eq!(token.renew_at, now);
    let token = Token::from(raw(0), now);
    assert_eq!((token.renew_at, token.expires_at), (now, now));
    // A pair that claims to last longer than the clock reaches is good for a minute.
    let token = Token::from(raw(u64::MAX), now);
    assert_eq!(token.expires_at, now + 60);
    assert_eq!(token.renew_at, now + 60);
    let token = Token::from(raw(9_223_372_036_854_775), now);
    assert_eq!(token.expires_at, now + 9_223_372_036_854_775);
    assert_eq!(token.renew_at, now + 9_223_372_036_854_775 - 3_600);
    let token = Token::from(raw(9_223_372_036_854_776), now);
    assert_eq!(token.expires_at, now + 60);
    assert_eq!(token.renew_at, now + 9_223_372_036_854_776 - 3_600);
}

#[test]
fn a_pair_is_due_once_the_time_to_renew_has_passed() {
    let token = Token::from(raw(7_200), 1_000);
    assert!(!token.is_due(1_000));
    assert!(!token.is_due(4_600));
    assert!(token.is_due(4_601));
    assert!(token.is_due(9_000));
    let client = Config::new().token(token).build().unwrap();
    assert!(!client.needs_refresh(4_600));
    assert!(client.needs_refresh(4_601));
}

#[test]
fn addresses_are_read_as_urls() {
    let client = Config::new()
        .auth_url("HTTP://LocalHost:4080")
        .owner_url("http://localhost:4080/a/../b")
        .streaming_url("ws://localhost:4080/streaming/")
        .token(token())
        .build()
        .unwrap();
    assert_eq!(client.auth_url, "http://localhost:4080/");
    assert_eq!(client.owner_url, "http://localhost:4080/b");
    assert_eq!(client.streaming_url, "ws://localhost:4080/streaming/");
    assert_eq!(client.token(), &token());
}

#[test]
fn addresses_that_are_not_set_are_those_of_the_real_service() {
    let client = Config::new().token(token()).build().unwrap();
    assert_eq!(client.auth_url, "https://auth.tesla.com/");
    assert_eq!(client.owner_url, "https://owner-api.teslamotors.com/");
    assert_eq!(client.streaming_url, "wss://streaming.vn.teslamotors.com/streaming/");
    let config = Config::new();
    assert_eq!((config.auth_url, config.owner_url, config.streaming_url), (None, None, None));
}

#[test]
fn an_address_that_is_no_url_makes_no_client() {
    assert!(matches!(
        Config::new().auth_url("not a url").token(token()).build(),
        Err(ConfigBuildError::UrlParseError(_))
    ));
    assert!(matches!(
        Config::new().owner_url("").token(token()).build(),
        Err(ConfigBuildError::UrlParseError(_))
    ));
    assert!(matches!(
        Config::new().streaming_url("//nowhere").token(token()).build(),
        Err(ConfigBuildError::UrlParseError(_))
    ));
}

#[test]
fn where_requests_go() {
    let client = client();
    let id = VehicleId::new(123_456_000);
    assert_eq!(client.token_url(), "http://localhost:4080/oauth2/v3/token");
    assert_eq!(client.vehicles_url(), "http://localhost:4080/api/1/vehicles");
    assert_eq!(client.vehicle_url(id), "http://localhost:4080/api/1/vehicles/123456000");
    assert_eq!(
        client.vehicle_data_url(id),
        "http://localhost:4080/api/1/vehicles/123456000/vehicle_data"
    );
    assert_eq!(client.wake_up_url(id), "http://localhost:4080/api/1/vehicles/123456000/wake_up");
    assert_eq!(client.simulate_url(id), "http://localhost:4080/api/1/vehicles/123456000/simulate");
}

#[test]
fn what_a_client_sends() {
    let client = client();
    match client.refresh_request() {
        TokenRequest::RefreshToken(request) => {
            assert_eq!(request.refresh_token, "r");
            assert_eq!(request.client_id, "ownerapi");
            assert_eq!(
                request.scope,
                "openid offline_access vehicle_device_data vehicle_cmds vehicle_charging_cmds energy_device_data energy_cmds"
            );
        }
        other => panic!("{other:?}"),
    }
    let fields = vec![StreamingFields::Speed, StreamingFields::EstLat, StreamingFields::ShiftState];
    assert_eq!(
        client.subscribe_message(VehicleGuid::new(999_456_000), &fields),
        ToServerStreamingMessage::DataSubscribeOauth {
            token: "a".to_string(),
            value: "speed,est_lat,shift_state".to_string(),
            tag: "999456000".to_string(),
        }
    );
}

#[test]
fn what_a_client_makes_of_a_message() {
    let fields = vec![StreamingFields::Speed, StreamingFields::Soc];
    assert_eq!(process_message(&FromServerStreamingMessage::hello(), &fields), Ok(None));
    let update = FromServerStreamingMessage::DataUpdate {
        tag: "999456000".to_string(),
        value: "1700000000000,60,41".to_string(),
    };
    let mut expected = StreamingData::new(VehicleGuid::new(999_456_000), 1_700_000_000_000);
    expected.speed = Some(Decimal::from_units(60));
    expected.soc = Some(41);
    assert_eq!(process_message(&update, &fields), Ok(Some(expected)));
    // A line that cannot be read is passed over.
    let update = FromServerStreamingMessage::DataUpdate {
        tag: "999456000".to_string(),
        value: "1700000000000,60,41,7".to_string(),
    };
    assert_eq!(process_message(&update, &fields), Ok(None));
    let table = [
        (ErrorType::VehicleDisconnected, "Vehicle disconnected: gone"),
        (ErrorType::VehicleError, "Vehicle error: gone"),
        (ErrorType::ClientError, "Client error: gone"),
    ];
    for (error_type, text) in table {
        let error = FromServerStreamingMessage::DataError(DataError::new("1", error_type, "gone"));
        assert_eq!(process_message(&error, &fields), Err(text.to_string()));
    }
}

#[test]
fn tokens_for_trying_out() {
    let config = get_token_config();
    assert_eq!(config.secret, "mom-said-yes");
    let token = get_token_for_all_scopes().unwrap();
    let claims = validate_access_token(&token.access_token, &config).unwrap();
    assert_eq!(claims.scopes, ScopeSet::all());
    assert_eq!(claims.exp as i64, token.expires_at);
    assert_eq!(token.renew_at, token.expires_at - 600);

    let mut scopes = ScopeSet::new();
    scopes.insert(ScopeEnum::VehicleCmds);
    let token = get_token_with_scopes(&scopes).unwrap();
    let claims = validate_refresh_token(&token.refresh_token, &config).unwrap();
    assert_eq!(claims.scopes, scopes);
}

#[test]
fn a_client_for_trying_out() {
    let client = get_client().unwrap();
    assert_eq!(client.auth_url, "http://localhost:4080/");
    assert_eq!(client.owner_url, "http://localhost:4080/");
    assert_eq!(client.streaming_url, "ws://localhost:4080/streaming/");
    assert!(validate_access_token(&client.token().access_token, &get_token_config()).is_ok());
    let client = get_client_with_token(token()).unwrap();
    assert_eq!(client.token(), &token());
}
