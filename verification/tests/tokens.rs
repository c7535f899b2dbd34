use fake_luxury_api::auth::{
    grant_scopes, renew_after, renew_token, renew_with, token_handler, AuthorizationCodeRequest,
    ClientCredentialsRequest, RefreshTokenRequest, TokenRequest, TokenResult,
};
use fake_luxury_api::client;
use fake_luxury_api::errors::ResponseError;
use fake_luxury_api::owner::access_token;
use fake_luxury_api::testing::{get_client_with_token, token_at};
use fake_luxury_api::tokens::{
    access_claims, parse_scopes, read_claims, refresh_claims, validate_access_token,
    validate_refresh_token, write_claims, AccessClaims, Config, Purpose, RefreshClaims,
    ScopeEnum, ScopeSet, Token, TokenGenerationError, TokenValidationError,
};

fn unix_time() -> i64 {
    std::time::SystemTime::now().duration_since(std::time::UNIX_EPOCH).unwrap().as_secs() as i64
}

fn config() -> Config {
    Config { secret: "mom-said-yes".to_string() }
}

fn scopes(list: &[ScopeEnum]) -> ScopeSet {
    let mut set = ScopeSet::new();
    for s in list {
        set.insert(*s);
    }
    set
}

fn refresh_request(token: &Token, scope: &str) -> RefreshTokenRequest {
    RefreshTokenRequest {
        refresh_token: token.refresh_token.clone(),
        client_id: "ownerapi".to_string(),
        scope: scope.to_string(),
    }
}

#[test]
fn tokens_test_renew_token() {
    // This config must match the server.
    let config = config();

    let scopes_held = scopes(&[
        ScopeEnum::Openid,
        ScopeEnum::OfflineAccess,
        ScopeEnum::UserData,
        // ScopeEnum::VehicleDeviceData,
        ScopeEnum::VehicleCmds,
        ScopeEnum::VehicleChargingCmds,
        ScopeEnum::EnergyDeviceData,
        ScopeEnum::EnergyCmds,
    ]);

    // The pair that the client starts with is a few seconds old.
    let then = unix_time() - 5;
    let token = Token::at(&config, &scopes_held, then).unwrap();
    let token = client::Token::from(TokenResult::from(token, then), then);
    let old_expires_at = token.expires_at;
    let old_renew_at = token.renew_at;

    let mut client = get_client_with_token(token).unwrap();
    let request = match client.refresh_request() {
        TokenRequest::RefreshToken(request) => request,
        other => panic!("{other:?}"),
    };
    let raw = renew_token(&request, &config).unwrap();
    client.token = client::Token::from(raw, unix_time());

    let new_token = client.token();
    assert!(new_token.expires_at > unix_time());
    // assert!(new_token.renew_at > unix_time());
    assert!(new_token.expires_at > old_expires_at);
    assert!(new_token.renew_at > old_renew_at);

    // We do not expect user_data or vehicle_device_data to be in the scopes
    let expected_scopes = scopes(&[
        ScopeEnum::Openid,
        ScopeEnum::OfflineAccess,
        // ScopeEnum::UserData,
        // ScopeEnum::VehicleDeviceData,
        ScopeEnum::VehicleCmds,
        ScopeEnum::VehicleChargingCmds,
        ScopeEnum::EnergyDeviceData,
        ScopeEnum::EnergyCmds,
    ]);

    let access_claims = validate_access_token(&new_token.access_token, &config).unwrap();
    assert_eq!(access_claims.purpose, Purpose::Access);
    assert_eq!(access_claims.scopes, expected_scopes);

    let refresh_claims = validate_refresh_token(&new_token.refresh_token, &config).unwrap();
    assert_eq!(refresh_claims.purpose, Purpose::Refresh);
    assert_eq!(refresh_claims.scopes, expected_scopes);
    assert_eq!(refresh_claims.exp, access_claims.exp);
    assert_eq!(access_claims.exp as i64, new_token.expires_at);
}

#[test]
fn a_token_states_what_it_was_made_for() {
    let config = config();
    let held = scopes(&[ScopeEnum::Openid, ScopeEnum::VehicleDeviceData]);
    let token = Token::at(&config, &held, 4_000_000_000).unwrap();
    assert_eq!(token.expires_at, 4_000_000_600);
    // A signed token is three parts, none of which is the claims in the clear.
    assert_eq!(token.access_token.split('.').count(), 3);
    assert!(!token.access_token.contains("openid"));
    assert_ne!(token.access_token, token.refresh_token);
    let claims = validate_access_token(&token.access_token, &config).unwrap();
    assert_eq!(claims, AccessClaims { purpose: Purpose::Access, exp: 4_000_000_600, scopes: held });
    let claims = validate_refresh_token(&token.refresh_token, &config).unwrap();
    assert_eq!(
        claims,
        RefreshClaims { purpose: Purpose::Refresh, exp: 4_000_000_600, scopes: held }
    );
    // The same claims under the same secret make the same token.
    let again = Token::at(&config, &held, 4_000_000_000).unwrap();
    assert_eq!(again, token);
}

#[test]
fn a_token_made_now_expires_in_ten_minutes() {
    let before = std::time::SystemTime::now()
        .duration_since(std::time::UNIX_EPOCH)
        .unwrap()
        .as_secs() as i64;
    let token = Token::new(&config(), &ScopeSet::all()).unwrap();
    let after = std::time::SystemTime::now()
        .duration_since(std::time::UNIX_EPOCH)
        .unwrap()
        .as_secs() as i64;
    assert!(before + 600 <= token.expires_at && token.expires_at <= after + 600);
    let claims = validate_access_token(&token.access_token, &config()).unwrap();
    assert_eq!(claims.exp as i64, token.expires_at);
    assert_eq!(claims.scopes, ScopeSet::all());
}

#[test]
fn purposes_are_kept_apart() {
    let config = config();
    let token = Token::new(&config, &ScopeSet::all()).unwrap();
    assert!(matches!(
        validate_access_token(&token.refresh_token, &config),
        Err(TokenValidationError::WrongTokenType)
    ));
    assert!(matches!(
        validate_refresh_token(&token.access_token, &config),
        Err(TokenValidationError::WrongTokenType)
    ));
    assert!(validate_access_token(&token.access_token, &config).is_ok());
    assert!(validate_refresh_token(&token.refresh_token, &config).is_ok());
    // Whatever is wrong, a caller of the interface hears the same.
    assert_eq!(access_token(&token.refresh_token, &config), Err(ResponseError::TokenExpired));
    assert_eq!(access_token("rubbish", &config), Err(ResponseError::TokenExpired));
    assert!(access_token(&token.access_token, &config).is_ok());
}

#[test]
fn a_token_that_does_not_check_out_is_turned_down() {
    let config = config();
    let token = Token::new(&config, &ScopeSet::all()).unwrap();
    let other = Config { secret: "dad-said-no".to_string() };
    assert!(matches!(
        validate_access_token(&token.access_token, &other),
        Err(TokenValidationError::TokenValidationError(_))
    ));
    assert!(matches!(
        validate_access_token("", &config),
        Err(TokenValidationError::TokenValidationError(_))
    ));
    let mut forged = token.access_token.clone();
    forged.push('x');
    assert!(matches!(
        validate_access_token(&forged, &config),
        Err(TokenValidationError::TokenValidationError(_))
    ));
    // A token that expired long ago.
    let old = Token::at(&config, &ScopeSet::all(), 1_000_000).unwrap();
    assert!(matches!(
        validate_access_token(&old.access_token, &config),
        Err(TokenValidationError::TokenValidationError(_))
    ));
    let request = refresh_request(&old, "openid offline_access");
    assert_eq!(renew_token(&request, &config), Err(ResponseError::TokenExpired));
}

#[test]
fn a_token_passes_until_it_expires_and_not_a_minute_longer() {
    let config = config();
    let now = unix_time();
    // Expired half a minute ago.
    let late = Token::at(&config, &ScopeSet::all(), now - 630).unwrap();
    assert_eq!(late.expires_at, now - 30);
    assert!(matches!(
        validate_access_token(&late.access_token, &config),
        Err(TokenValidationError::TokenValidationError(_))
    ));
    assert!(matches!(
        validate_refresh_token(&late.refresh_token, &config),
        Err(TokenValidationError::TokenValidationError(_))
    ));
    assert_eq!(access_token(&late.access_token, &config), Err(ResponseError::TokenExpired));
    let request = refresh_request(&late, "openid offline_access");
    assert_eq!(renew_token(&request, &config), Err(ResponseError::TokenExpired));
    // Expires in half a minute.
    let fresh = Token::at(&config, &ScopeSet::all(), now - 570).unwrap();
    assert_eq!(fresh.expires_at, now + 30);
    assert!(validate_access_token(&fresh.access_token, &config).is_ok());
    assert!(validate_refresh_token(&fresh.refresh_token, &config).is_ok());
}

#[test]
fn signing_depends_on_the_secret_and_the_claims_alone() {
    let config = config();
    let some = scopes(&[ScopeEnum::Openid, ScopeEnum::VehicleCmds]);
    let a = Token::at(&config, &some, 1_700_000_000).unwrap();
    let b = Token::at(&config, &some, 1_700_000_000).unwrap();
    assert_eq!(a, b);
    assert_ne!(a.access_token, a.refresh_token);
    assert_eq!(a.access_token.split('.').count(), 3);
    let later = Token::at(&config, &some, 1_700_000_001).unwrap();
    assert_ne!(a.access_token, later.access_token);
    let other = Config { secret: "dad-said-no".to_string() };
    assert_ne!(a.access_token, Token::at(&other, &some, 1_700_000_000).unwrap().access_token);
    // Every time whose expiry can be written down gives a pair.
    for now in [-600, 0, i64::MAX - 600] {
        let pair = Token::at(&config, &ScopeSet::new(), now).unwrap();
        assert_eq!(pair.expires_at, now + 600);
    }
}

#[test]
fn the_time_of_expiry_has_to_be_after_the_epoch() {
    let config = config();
    let all = ScopeSet::all();
    assert!(matches!(
        Token::at(&config, &all, -601),
        Err(TokenGenerationError::TimestampError)
    ));
    assert!(matches!(
        Token::at(&config, &all, i64::MAX - 599),
        Err(TokenGenerationError::TimestampError)
    ));
    assert_eq!(Token::at(&config, &all, -600).unwrap().expires_at, 0);
    assert_eq!(Token::at(&config, &all, i64::MAX - 600).unwrap().expires_at, i64::MAX);
}

#[test]
fn claims_are_written_down_in_one_way() {
    let held = scopes(&[ScopeEnum::VehicleCmds, ScopeEnum::Openid, ScopeEnum::OfflineAccess]);
    assert_eq!(
        write_claims(Purpose::Access, 1_700_000_600, &held),
        r#"{"exp":1700000600,"purpose":"Access","scopes":["openid","offline_access","vehicle_cmds"]}"#
    );
    assert_eq!(
        write_claims(Purpose::Refresh, 0, &ScopeSet::new()),
        r#"{"exp":0,"purpose":"Refresh","scopes":[]}"#
    );
    assert_eq!(
        write_claims(Purpose::Access, u64::MAX, &ScopeSet::all()),
        r#"{"exp":18446744073709551615,"purpose":"Access","scopes":["openid","offline_access","user_data","vehicle_device_data","vehicle_cmds","vehicle_charging_cmds","energy_device_data","energy_cmds"]}"#
    );
}

#[test]
fn written_claims_are_read_as_they_were() {
    for purpose in [Purpose::Access, Purpose::Refresh] {
        for exp in [0, 1, 1_700_000_600, u64::MAX] {
            for bits in 0..256u32 {
                let mut set = ScopeSet::new();
                for i in 0..8 {
                    if bits & (1 << i) != 0 {
                        set.insert(ScopeEnum::nth(i));
                    }
                }
                let text = write_claims(purpose, exp, &set);
                assert_eq!(read_claims(&text), Some((purpose, exp, set)), "{text}");
            }
        }
    }
}

#[test]
fn claims_are_read_strictly() {
    let good = r#"{"exp":5,"purpose":"Access","scopes":["openid"]}"#;
    assert_eq!(
        read_claims(good),
        Some((Purpose::Access, 5, scopes(&[ScopeEnum::Openid])))
    );
    // Scopes may come in any order and more than once.
    assert_eq!(
        read_claims(r#"{"exp":5,"purpose":"Refresh","scopes":["energy_cmds","openid","openid"]}"#),
        Some((Purpose::Refresh, 5, scopes(&[ScopeEnum::Openid, ScopeEnum::EnergyCmds])))
    );
    for bad in [
        "",
        "{}",
        r#"{"exp":5,"purpose":"Access","scopes":["openid"]} "#,
        r#"{"exp":5,"purpose":"Access","scopes":["openid"]"#,
        r#"{"exp":,"purpose":"Access","scopes":[]}"#,
        r#"{"exp":-5,"purpose":"Access","scopes":[]}"#,
        r#"{"exp":5.0,"purpose":"Access","scopes":[]}"#,
        r#"{"exp":18446744073709551616,"purpose":"Access","scopes":[]}"#,
        r#"{"exp":5,"purpose":"access","scopes":[]}"#,
        r#"{"exp":5,"purpose":"Access","scopes":["root"]}"#,
        r#"{"exp":5,"purpose":"Access","scopes":[openid]}"#,
        r#"{"exp":5,"purpose":"Access","scopes":["openid",]}"#,
        r#"{"exp":5,"purpose":"Access","scopes":["openid" ,"user_data"]}"#,
        r#"{"purpose":"Access","exp":5,"scopes":[]}"#,
        r#"{"exp":5,"purpose":"Access","scopes":[],"sub":"me"} "#,
        r#"{"exp":5,"purpose":"Access","scopes":[],"sub":"me"#,
        r#"{"exp":5,"purpose":"Access","scopes":[],"sub":"me}"#,
        r#"{"exp":5,"purpose":"Access","sub":"me"}"#,
        r#"{"exp":5,"purpose":5,"scopes":[]}"#,
        r#"{"exp":"5","purpose":"Access","scopes":[],"sub":"me"}"#,
        r#"{"sub":{"exp":5,"purpose":"Access","scopes":[]}}"#,
        r#"["exp",5,"purpose","Access","scopes",[]]"#,
    ] {
        assert_eq!(read_claims(bad), None, "{bad}");
        assert!(matches!(access_claims(bad), Err(TokenValidationError::MalformedClaims)));
        assert!(matches!(refresh_claims(bad), Err(TokenValidationError::MalformedClaims)));
    }
    assert!(matches!(refresh_claims(good), Err(TokenValidationError::WrongTokenType)));
    assert!(access_claims(good).is_ok());
}

#[test]
fn what_a_token_says_beyond_its_claims_is_passed_over() {
    let expected = Some((Purpose::Access, 5, scopes(&[ScopeEnum::Openid, ScopeEnum::UserData])));
    for text in [
        r#"{"exp":5,"purpose":"Access","scopes":["openid","user_data"]}"#,
        r#"{"exp":5,"purpose":"Access","scopes":["openid","user_data"],"sub":"me"}"#,
        r#"{"aaa":null,"exp":5,"purpose":"Access","scopes":["openid","user_data"]}"#,
        r#"{"exp":5,"iat":4,"purpose":"Access","scopes":["openid","user_data"]}"#,
        r#"{"exp":5,"purpose":"Access","q":true,"scopes":["openid","user_data"],"z":-1.5e3}"#,
        // Brackets, commas and quotes inside a string are part of the string.
        r#"{"exp":5,"purpose":"Access","scopes":["openid","user_data"],"sub":"a,b}\"],\\"}"#,
        r#"{"a\"b,":"x","exp":5,"purpose":"Access","scopes":["openid","user_data"]}"#,
        // And what is nested belongs to its member.
        r#"{"exp":5,"nested":{"exp":7,"list":[1,[2,"]"],{"k":"}"}]},"purpose":"Access","scopes":["openid","user_data"]}"#,
        r#"{"exp":5,"list":[],"purpose":"Access","scopes":["openid","user_data"],"zzz":{}}"#,
    ] {
        assert_eq!(read_claims(text), expected, "{text}");
        assert!(access_claims(text).is_ok());
        assert!(matches!(refresh_claims(text), Err(TokenValidationError::WrongTokenType)));
    }
}

#[test]
fn a_token_with_further_claims_is_taken_for_its_claims() {
    let config = config();
    let exp = unix_time() as u64 + 60;
    let mut inner = serde_json::Map::new();
    inner.insert("exp".to_string(), serde_json::Value::from(1));
    inner.insert("why".to_string(), serde_json::Value::from("a, \"b\" }"));
    let mut claims = serde_json::Map::new();
    claims.insert("exp".to_string(), serde_json::Value::from(exp));
    claims.insert("purpose".to_string(), serde_json::Value::from("Refresh"));
    claims.insert(
        "scopes".to_string(),
        serde_json::Value::Array(vec![
            serde_json::Value::from("offline_access"),
            serde_json::Value::from("openid"),
            serde_json::Value::from("vehicle_cmds"),
        ]),
    );
    claims.insert("iat".to_string(), serde_json::Value::from(exp - 600));
    claims.insert("sub".to_string(), serde_json::Value::from("some, \"one\" ]"));
    claims.insert(
        "more".to_string(),
        serde_json::Value::Array(vec![serde_json::Value::Object(inner), serde_json::Value::Null]),
    );
    let token = jsonwebtoken::encode(
        &jsonwebtoken::Header::default(),
        &serde_json::Value::Object(claims),
        &jsonwebtoken::EncodingKey::from_secret("mom-said-yes".as_bytes()),
    )
    .unwrap();
    let held = scopes(&[ScopeEnum::OfflineAccess, ScopeEnum::Openid, ScopeEnum::VehicleCmds]);
    assert_eq!(
        validate_refresh_token(&token, &config).unwrap(),
        RefreshClaims { purpose: Purpose::Refresh, exp, scopes: held }
    );
    assert!(matches!(
        validate_access_token(&token, &config),
        Err(TokenValidationError::WrongTokenType)
    ));
    let request = RefreshTokenRequest {
        refresh_token: token,
        client_id: "ownerapi".to_string(),
        scope: "openid offline_access vehicle_cmds user_data".to_string(),
    };
    let renewed = renew_token(&request, &config).unwrap();
    assert_eq!(
        validate_access_token(&renewed.access_token, &config).unwrap().scopes,
        held
    );
}

#[test]
fn scopes_are_named() {
    let names = [
        "openid",
        "offline_access",
        "user_data",
        "vehicle_device_data",
        "vehicle_cmds",
        "vehicle_charging_cmds",
        "energy_device_data",
        "energy_cmds",
    ];
    for (i, name) in names.into_iter().enumerate() {
        let scope = ScopeEnum::nth(i);
        assert_eq!(scope.to_string(), name);
        assert_eq!(ScopeEnum::from_str(name), Ok(scope));
    }
    assert_eq!(ScopeEnum::from_str("Openid"), Err(()));
    assert_eq!(
        parse_scopes("openid vehicle_cmds openid"),
        Some(scopes(&[ScopeEnum::Openid, ScopeEnum::VehicleCmds]))
    );
    assert_eq!(parse_scopes("openid  vehicle_cmds"), None);
    assert_eq!(parse_scopes(""), None);
    assert_eq!(parse_scopes("openid,vehicle_cmds"), None);
    assert_eq!(
        ScopeSet::all().to_vec(),
        (0..8).map(ScopeEnum::nth).collect::<Vec<_>>()
    );
}

#[test]
fn sets_of_scopes() {
    let a = scopes(&[ScopeEnum::Openid, ScopeEnum::UserData, ScopeEnum::EnergyCmds]);
    let b = scopes(&[ScopeEnum::UserData, ScopeEnum::VehicleCmds, ScopeEnum::EnergyCmds]);
    assert_eq!(a.intersection(&b), scopes(&[ScopeEnum::UserData, ScopeEnum::EnergyCmds]));
    assert_eq!(a.intersection(&ScopeSet::new()), ScopeSet::new());
    assert_eq!(a.intersection(&ScopeSet::all()), a);
    assert!(a.contains(ScopeEnum::Openid));
    assert!(!a.contains(ScopeEnum::VehicleCmds));
    assert_eq!(a.to_vec(), vec![ScopeEnum::Openid, ScopeEnum::UserData, ScopeEnum::EnergyCmds]);
}

#[test]
fn a_refresh_grants_what_is_asked_for_and_held() {
    let held = scopes(&[
        ScopeEnum::Openid,
        ScopeEnum::OfflineAccess,
        ScopeEnum::UserData,
        ScopeEnum::VehicleCmds,
    ]);
    let claims = RefreshClaims { purpose: Purpose::Refresh, exp: 0, scopes: held };
    assert_eq!(
        grant_scopes(&claims, "openid offline_access vehicle_device_data vehicle_cmds"),
        Ok(scopes(&[ScopeEnum::Openid, ScopeEnum::OfflineAccess, ScopeEnum::VehicleCmds]))
    );
    assert_eq!(
        grant_scopes(&claims, "offline_access openid"),
        Ok(scopes(&[ScopeEnum::Openid, ScopeEnum::OfflineAccess]))
    );
    assert_eq!(
        grant_scopes(&claims, "openid offline_access admin"),
        Err(ResponseError::InternalServerError("Could not parse scopes".to_string()))
    );
    assert_eq!(
        grant_scopes(&claims, "offline_access user_data"),
        Err(ResponseError::NotImplemented("We require openid scope for now.".to_string()))
    );
    assert_eq!(
        grant_scopes(&claims, "openid user_data"),
        Err(ResponseError::NotImplemented(
            "We require offline_access scope for now.".to_string()
        ))
    );
    // Holding a scope is not enough; it has to be asked for.
    let poor = RefreshClaims {
        purpose: Purpose::Refresh,
        exp: 0,
        scopes: scopes(&[ScopeEnum::OfflineAccess, ScopeEnum::UserData]),
    };
    assert_eq!(
        grant_scopes(&poor, "openid offline_access"),
        Err(ResponseError::NotImplemented("We require openid scope for now.".to_string()))
    );
}

#[test]
fn a_refresh_is_answered_with_a_new_pair() {
    let config = config();
    let held = scopes(&[ScopeEnum::Openid, ScopeEnum::OfflineAccess, ScopeEnum::UserData]);
    let claims = RefreshClaims { purpose: Purpose::Refresh, exp: 0, scopes: held };
    let request = RefreshTokenRequest {
        refresh_token: String::new(),
        client_id: "ownerapi".to_string(),
        scope: "openid offline_access energy_cmds".to_string(),
    };
    let raw = renew_with(&claims, &request, &config, 4_000_000_000).unwrap();
    let granted = scopes(&[ScopeEnum::Openid, ScopeEnum::OfflineAccess]);
    let pair = Token::at(&config, &granted, 4_000_000_000).unwrap();
    assert_eq!(
        raw,
        TokenResult {
            access_token: pair.access_token,
            refresh_token: pair.refresh_token,
            id_token: String::new(),
            token_type: "Bearer".to_string(),
            expires_in: 600,
        }
    );
    assert_eq!(
        renew_with(&claims, &request, &config, -601),
        Err(ResponseError::InternalServerError("Could not create token".to_string()))
    );
}

#[test]
fn only_refresh_requests_are_answered() {
    let config = config();
    let not_yet = Err(ResponseError::NotImplemented(
        "We only support refresh_token grant type for now.".to_string(),
    ));
    let code = TokenRequest::AuthorizationCode(AuthorizationCodeRequest {
        client_id: String::new(),
        client_secret: String::new(),
        code: String::new(),
        redirect_uri: String::new(),
        scope: String::new(),
        audience: String::new(),
    });
    assert_eq!(code.grant_type(), "authorization_code");
    assert_eq!(token_handler(&code, &config), not_yet);
    let credentials = TokenRequest::ClientCredentials(ClientCredentialsRequest {
        client_id: String::new(),
        client_secret: String::new(),
        scope: String::new(),
        audience: String::new(),
    });
    assert_eq!(credentials.grant_type(), "client_credentials");
    assert_eq!(token_handler(&credentials, &config), not_yet);

    let token = Token::new(&config, &ScopeSet::all()).unwrap();
    let refresh = TokenRequest::RefreshToken(refresh_request(&token, "openid offline_access"));
    assert_eq!(refresh.grant_type(), "refresh_token");
    let raw = token_handler(&refresh, &config).unwrap();
    let claims = validate_access_token(&raw.access_token, &config).unwrap();
    assert_eq!(claims.scopes, scopes(&[ScopeEnum::Openid, ScopeEnum::OfflineAccess]));
    // An access token is no refresh token.
    let wrong = TokenRequest::RefreshToken(RefreshTokenRequest {
        refresh_token: token.access_token.clone(),
        client_id: "ownerapi".to_string(),
        scope: "openid offline_access".to_string(),
    });
    assert_eq!(token_handler(&wrong, &config), Err(ResponseError::TokenExpired));
}

#[test]
fn a_request_that_cannot_be_granted_fails_whatever_the_token() {
    let config = config();
    let token = Token::new(&config, &ScopeSet::all()).unwrap();
    assert_eq!(
        renew_token(&refresh_request(&token, "openid offline_access admin"), &config),
        Err(ResponseError::InternalServerError("Could not parse scopes".to_string()))
    );
    assert_eq!(
        renew_token(&refresh_request(&token, "offline_access user_data"), &config),
        Err(ResponseError::NotImplemented("We require openid scope for now.".to_string()))
    );
    assert_eq!(
        renew_token(&refresh_request(&token, "openid user_data"), &config),
        Err(ResponseError::NotImplemented(
            "We require offline_access scope for now.".to_string()
        ))
    );
    // With a token that does not pass, the same requests are told that.
    let mut request = refresh_request(&token, "offline_access user_data");
    request.refresh_token = token.access_token.clone();
    assert_eq!(renew_token(&request, &config), Err(ResponseError::TokenExpired));
    // A request that can be granted is answered with a pair for ten minutes.
    let raw = renew_token(&refresh_request(&token, "openid offline_access"), &config).unwrap();
    assert_eq!(raw.expires_in, 600);
    assert_eq!(raw.token_type, "Bearer");
    assert_eq!(raw.id_token, "");
}

#[test]
fn a_pair_for_trying_out_is_made_for_a_given_time() {
    let some = scopes(&[ScopeEnum::Openid, ScopeEnum::OfflineAccess]);
    let token = token_at(&some, 1_700_000_000).unwrap();
    assert_eq!(token.expires_at, 1_700_000_600);
    assert_eq!(token.renew_at, 1_700_000_000);
    let pair = Token::at(&config(), &some, 1_700_000_000).unwrap();
    assert_eq!(token.access_token, pair.access_token);
    assert_eq!(token.refresh_token, pair.refresh_token);
    // A time whose expiry cannot be written down, or that is out of reach.
    assert_eq!(token_at(&some, -601), None);
    assert_eq!(token_at(&some, i64::MAX), None);
    assert_eq!(token_at(&some, i64::MAX - 9_223_372_036_854_775 + 1), None);
    assert!(token_at(&some, i64::MAX - 9_223_372_036_854_775).is_some());
}

#[test]
fn a_refresh_token_that_did_not_pass_is_reported_as_expired() {
    let config = config();
    let now = 1_700_000_000;
    let bad_signature = validate_refresh_token("a.b.c", &config).unwrap_err();
    assert!(matches!(bad_signature, TokenValidationError::TokenValidationError(_)));
    // Whatever was wrong with the token, and whatever is asked for.
    for scope in ["openid offline_access", "openid", "admin", ""] {
        let request = RefreshTokenRequest {
            refresh_token: "a.b.c".to_string(),
            client_id: "ownerapi".to_string(),
            scope: scope.to_string(),
        };
        assert_eq!(
            renew_after(validate_refresh_token("a.b.c", &config), &request, &config, now),
            Err(ResponseError::TokenExpired)
        );
        assert_eq!(
            renew_after(Err(TokenValidationError::MalformedClaims), &request, &config, now),
            Err(ResponseError::TokenExpired)
        );
        assert_eq!(
            renew_after(Err(TokenValidationError::WrongTokenType), &request, &config, now),
            Err(ResponseError::TokenExpired)
        );
        assert_eq!(renew_token(&request, &config), Err(ResponseError::TokenExpired));
    }
    // An access token is no refresh token.
    let pair = Token::at(&config, &ScopeSet::all(), unix_time()).unwrap();
    let request = RefreshTokenRequest {
        refresh_token: pair.access_token.clone(),
        client_id: "ownerapi".to_string(),
        scope: "openid offline_access".to_string(),
    };
    assert_eq!(renew_token(&request, &config), Err(ResponseError::TokenExpired));
    // A token that passed is answered as its holder is.
    let held = scopes(&[ScopeEnum::Openid, ScopeEnum::OfflineAccess, ScopeEnum::UserData]);
    let claims = RefreshClaims { purpose: Purpose::Refresh, exp: 0, scopes: held };
    let request = refresh_request(&pair, "openid offline_access vehicle_cmds");
    assert_eq!(
        renew_after(Ok(claims), &request, &config, now),
        renew_with(&claims, &request, &config, now)
    );
    let raw = renew_after(Ok(claims), &request, &config, now).unwrap();
    let granted = scopes(&[ScopeEnum::Openid, ScopeEnum::OfflineAccess]);
    let expected = Token::at(&config, &granted, now).unwrap();
    assert_eq!(raw.access_token, expected.access_token);
    assert_eq!(raw.refresh_token, expected.refresh_token);
    assert_eq!(raw.expires_in, 600);
    let request = refresh_request(&pair, "openid");
    assert_eq!(
        renew_after(Ok(claims), &request, &config, now),
        Err(ResponseError::NotImplemented(
            "We require offline_access scope for now.".to_string()
        ))
    );
}

#[test]
fn claims_that_come_back_are_those_that_the_token_carries() {
    let config = config();
    let some = scopes(&[ScopeEnum::Openid, ScopeEnum::VehicleDeviceData]);
    let now = unix_time();
    let pair = Token::at(&config, &some, now).unwrap();
    let exp = (now + 600) as u64;
    assert_eq!(
        validate_access_token(&pair.access_token, &config).unwrap(),
        AccessClaims { purpose: Purpose::Access, exp, scopes: some }
    );
    assert_eq!(
        validate_refresh_token(&pair.refresh_token, &config).unwrap(),
        RefreshClaims { purpose: Purpose::Refresh, exp, scopes: some }
    );
    assert_eq!(
        access_token(&pair.access_token, &config),
        Ok(AccessClaims { purpose: Purpose::Access, exp, scopes: some })
    );
    assert_eq!(access_token(&pair.refresh_token, &config), Err(ResponseError::TokenExpired));
    assert_eq!(access_token("no token", &config), Err(ResponseError::TokenExpired));
}
