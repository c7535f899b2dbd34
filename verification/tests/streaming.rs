use fake_luxury_api::connection::{
    decide_request, decide_validated, handle_socket, process_client_message, send_error,
    ClientRequest, Connection, SocketError, SocketEvent, SubscribeRequest, Turn,
};
use fake_luxury_api::data::get_vehicles;
use fake_luxury_api::decimal::Decimal;
use fake_luxury_api::simulator::actor::{start, Command, Event, Reply, StreamSource};
use fake_luxury_api::simulator::SimulationStateEnum;
use fake_luxury_api::streaming::{
    deserialize_fields, DataError, ErrorType, FromServerStreamingMessage, StreamingData,
    StreamingFields, ToServerStreamingMessage,
};
use fake_luxury_api::tokens::{
    validate_access_token, AccessClaims, Config, Purpose, ScopeEnum, ScopeSet, Token,
    TokenValidationError,
};
use fake_luxury_api::types::VehicleGuid;
use fake_luxury_api::vehicles::Vehicle;

fn config() -> Config {
    Config { secret: "mom-said-yes".to_string() }
}

fn fleet() -> Vec<Vehicle> {
    get_vehicles().into_iter().map(Vehicle::new).collect()
}

fn subscribe(token: &str, value: &str, tag: &str) -> ToServerStreamingMessage {
    ToServerStreamingMessage::DataSubscribeOauth {
        token: token.to_string(),
        value: value.to_string(),
        tag: tag.to_string(),
    }
}

fn client_error(tag: &str, value: &str) -> DataError {
    DataError::new(tag, ErrorType::ClientError, value)
}

fn report(e: DataError) -> Result<ClientRequest, SocketError> {
    Err(SocketError::ReportableError(e))
}

fn nothing() -> Turn {
    Turn { send: None, subscribe: None, done: None }
}

#[test]
fn test_streaming() {
    let config = config();
    let fleet = fleet();
    let token = Token::new(&config, &ScopeSet::all()).unwrap();

    let fields = vec![
        StreamingFields::Speed,
        StreamingFields::Odometer,
        StreamingFields::Soc,
        StreamingFields::Elevation,
        StreamingFields::EstHeading,
        StreamingFields::EstLat,
        StreamingFields::EstLng,
        StreamingFields::Power,
        StreamingFields::ShiftState,
        StreamingFields::Range,
        StreamingFields::EstRange,
        StreamingFields::Heading,
    ];
    let guid = VehicleGuid::new(999_456_000);

    // The server greets.
    let mut connection = Connection::new();
    let turn = connection.handle_socket_internal(SocketEvent::Opened, &config, &fleet);
    assert_eq!(
        turn,
        Turn {
            send: Some(FromServerStreamingMessage::ControlHello { connection_timeout: 30000 }),
            subscribe: None,
            done: None,
        }
    );
    assert_eq!(turn.send, Some(FromServerStreamingMessage::hello()));

    // The client subscribes.
    let message = subscribe(
        &token.access_token,
        "speed,odometer,soc,elevation,est_heading,est_lat,est_lng,power,shift_state,range,est_range,heading",
        "999456000",
    );
    let turn = connection.handle_socket_internal(
        SocketEvent::Message(Some(message)),
        &config,
        &fleet,
    );
    assert_eq!(turn.send, None);
    assert_eq!(turn.done, None);
    let request = turn.subscribe.unwrap();
    assert_eq!(request, SubscribeRequest { index: 1, vehicle_id: guid, fields: fields.clone() });

    // The simulator grants the subscription.
    let mut sim = start(&fleet[request.index].data, 0, 1_700_000_000_000);
    assert_eq!(
        sim.step(Event::Command(Command::Subscribe), 100, 1_700_000_000_100).reply,
        Reply::Subscribe(Ok(StreamSource::New))
    );
    let turn = connection.handle_socket_internal(
        SocketEvent::Subscribed { vehicle_id: request.vehicle_id, fields: request.fields },
        &config,
        &fleet,
    );
    assert_eq!(turn, nothing());
    assert_eq!(connection.fields_of(guid), Some(&fields));

    // The vehicle drives, and every second brings a line.
    sim.step(
        Event::Command(Command::Simulate(SimulationStateEnum::Driving)),
        200,
        1_700_000_000_200,
    );
    let mut iteration = 0;
    let mut last = 0;
    while iteration <= 2 {
        let now = 1_200 + iteration * 1_000;
        let out = sim.step(
            Event::DriveTick {
                latitude: Decimal::from_micros(37_776_790),
                longitude: Decimal::from_micros(-122_419_541),
            },
            now,
            1_700_000_000_000 + now as i64,
        );
        let sample = out.sample.unwrap();
        let turn = connection.handle_socket_internal(
            SocketEvent::Sample { vehicle_id: sample.id, data: sample.clone() },
            &config,
            &fleet,
        );
        assert_eq!(turn.subscribe, None);
        assert_eq!(turn.done, None);
        match turn.send.unwrap() {
            FromServerStreamingMessage::DataUpdate { tag, value } => {
                assert_eq!(tag, "999456000");
                assert_eq!(value.split(',').count(), 13);
                assert_eq!(
                    value,
                    format!(
                        "{},60,0,41,0,0,37.77679,-122.419541,500,D,82,82,0",
                        1_700_000_000_000u64 + now
                    )
                );
                let msg = deserialize_fields(guid, &value, &fields).unwrap();
                println!("Received: {msg:?}");
                assert_eq!(msg, sample);
                assert!(last <= msg.time);
                last = msg.time;
            }
            other => panic!("{other:?}"),
        }
        iteration += 1;
    }
}

#[test]
fn five_fields_make_six_values() {
    let config = config();
    let fleet = fleet();
    let mut connection = Connection::new();
    let guid = VehicleGuid::new(999_456_000);
    let claims = AccessClaims { purpose: Purpose::Access, exp: 0, scopes: ScopeSet::all() };
    let message = subscribe("", "speed,odometer,soc,est_lat,est_lng", "999456000");
    let request = match decide_request(&message, Some(claims), &fleet) {
        Ok(ClientRequest::Subscribe(request)) => request,
        other => panic!("{other:?}"),
    };
    connection.insert(request.vehicle_id, request.fields);
    let mut data = StreamingData::new(guid, 1_700_000_000_000);
    data.speed = Some(Decimal::from_units(60));
    data.soc = Some(41);
    let turn = connection.handle_socket_internal(
        SocketEvent::Sample { vehicle_id: guid, data },
        &config,
        &fleet,
    );
    assert_eq!(
        turn.send,
        Some(FromServerStreamingMessage::DataUpdate {
            tag: "999456000".to_string(),
            value: "1700000000000,60,,41,,".to_string(),
        })
    );
}

#[test]
fn a_subscription_needs_a_good_token_a_scope_and_a_vehicle() {
    let fleet = fleet();
    let all = AccessClaims { purpose: Purpose::Access, exp: 0, scopes: ScopeSet::all() };
    let mut some = ScopeSet::all();
    some.vehicle_device_data = false;
    let poor = AccessClaims { purpose: Purpose::Access, exp: 0, scopes: some };

    let message = subscribe("t", "speed", "999456000");
    assert_eq!(
        decide_request(&message, None, &fleet),
        report(client_error("999456000", "Invalid token"))
    );
    assert_eq!(
        decide_request(&message, Some(poor), &fleet),
        report(client_error("999456000", "Invalid scope"))
    );
    assert_eq!(
        decide_request(&subscribe("t", "speed", "car"), Some(all), &fleet),
        report(client_error("car", "Invalid vehicle id"))
    );
    // The owner identifier is not the streaming identifier.
    assert_eq!(
        decide_request(&subscribe("t", "speed", "123456000"), Some(all), &fleet),
        report(client_error("123456000", "Invalid vehicle id"))
    );
    // The token is looked at before the tag.
    assert_eq!(
        decide_request(&subscribe("t", "speed", "car"), None, &fleet),
        report(client_error("car", "Invalid token"))
    );
    assert_eq!(
        decide_request(&subscribe("t", "speed,warp,soc", "999456789"), Some(all), &fleet),
        Ok(ClientRequest::Subscribe(SubscribeRequest {
            index: 0,
            vehicle_id: VehicleGuid::new(999_456_789),
            fields: vec![StreamingFields::Speed, StreamingFields::Soc],
        }))
    );
    let end = ToServerStreamingMessage::DataUnsubscribe { tag: "999456000".to_string() };
    assert_eq!(
        decide_request(&end, None, &fleet),
        Ok(ClientRequest::Unsubscribe(VehicleGuid::new(999_456_000)))
    );
    let end = ToServerStreamingMessage::DataUnsubscribe { tag: "that one".to_string() };
    assert_eq!(
        decide_request(&end, Some(all), &fleet),
        report(client_error("that one", "Invalid vehicle id"))
    );
}

#[test]
fn the_token_of_a_subscription_is_checked() {
    let config = config();
    let fleet = fleet();
    assert_eq!(
        process_client_message(&subscribe("rubbish", "speed", "999456000"), &config, &fleet),
        report(client_error("999456000", "Invalid token"))
    );
    let mut scopes = ScopeSet::new();
    scopes.insert(ScopeEnum::VehicleCmds);
    let token = Token::new(&config, &scopes).unwrap();
    assert_eq!(
        process_client_message(
            &subscribe(&token.access_token, "speed", "999456000"),
            &config,
            &fleet
        ),
        report(client_error("999456000", "Invalid scope"))
    );
    // A refresh token does not open a stream.
    let token = Token::new(&config, &ScopeSet::all()).unwrap();
    assert_eq!(
        process_client_message(
            &subscribe(&token.refresh_token, "speed", "999456000"),
            &config,
            &fleet
        ),
        report(client_error("999456000", "Invalid token"))
    );
    assert_eq!(
        process_client_message(
            &subscribe(&token.access_token, "speed", "999456000"),
            &config,
            &fleet
        ),
        Ok(ClientRequest::Subscribe(SubscribeRequest {
            index: 1,
            vehicle_id: VehicleGuid::new(999_456_000),
            fields: vec![StreamingFields::Speed],
        }))
    );
}

#[test]
fn a_client_error_is_reported_and_the_connection_goes_on() {
    let config = config();
    let fleet = fleet();
    let mut connection = Connection::new();
    connection.insert(VehicleGuid::new(999_456_789), vec![StreamingFields::Soc]);
    let turn = connection.handle_socket_internal(
        SocketEvent::Message(Some(subscribe("rubbish", "speed", "999456000"))),
        &config,
        &fleet,
    );
    assert_eq!(
        turn,
        Turn {
            send: Some(FromServerStreamingMessage::DataError(client_error(
                "999456000",
                "Invalid token"
            ))),
            subscribe: None,
            done: None,
        }
    );
    assert_eq!(
        connection.fields_of(VehicleGuid::new(999_456_789)),
        Some(&vec![StreamingFields::Soc])
    );
    let turn = connection.handle_socket_internal(
        SocketEvent::SubscribeFailed(DataError::disconnected(VehicleGuid::new(999_456_000))),
        &config,
        &fleet,
    );
    assert_eq!(
        turn.send,
        Some(FromServerStreamingMessage::DataError(DataError {
            tag: "999456000".to_string(),
            error_type: ErrorType::VehicleDisconnected,
            value: "disconnected".to_string(),
        }))
    );
    assert_eq!(turn.done, None);
}

#[test]
fn subscriptions_are_kept_by_vehicle() {
    let config = config();
    let fleet = fleet();
    let a = VehicleGuid::new(999_456_789);
    let b = VehicleGuid::new(999_456_000);
    let mut connection = Connection::new();
    assert_eq!(connection.fields_of(a), None);
    connection.insert(a, vec![StreamingFields::Soc]);
    connection.insert(b, vec![StreamingFields::Speed]);
    // A second subscription to a vehicle takes the place of the first.
    connection.insert(a, vec![StreamingFields::Range, StreamingFields::Soc]);
    assert_eq!(connection.subscriptions.len(), 2);
    assert_eq!(
        connection.fields_of(a),
        Some(&vec![StreamingFields::Range, StreamingFields::Soc])
    );
    assert_eq!(connection.fields_of(b), Some(&vec![StreamingFields::Speed]));

    let end = ToServerStreamingMessage::DataUnsubscribe { tag: "999456789".to_string() };
    let turn = connection.handle_socket_internal(
        SocketEvent::Message(Some(end)),
        &config,
        &fleet,
    );
    assert_eq!(turn, nothing());
    assert_eq!(connection.fields_of(a), None);
    assert_eq!(connection.fields_of(b), Some(&vec![StreamingFields::Speed]));
    // A sample of a vehicle that is not subscribed to goes nowhere.
    let turn = connection.handle_socket_internal(
        SocketEvent::Sample { vehicle_id: a, data: StreamingData::new(a, 5) },
        &config,
        &fleet,
    );
    assert_eq!(turn, nothing());
    connection.remove(b);
    connection.remove(b);
    assert!(connection.subscriptions.is_empty());
}

#[test]
fn the_end_of_a_stream_is_told_and_ends_the_subscription() {
    let config = config();
    let fleet = fleet();
    let guid = VehicleGuid::new(999_456_000);
    let mut connection = Connection::new();
    connection.insert(guid, vec![StreamingFields::Speed]);
    let turn = connection.handle_socket_internal(
        SocketEvent::StreamEnded { vehicle_id: guid },
        &config,
        &fleet,
    );
    match turn.send {
        Some(FromServerStreamingMessage::DataError(e)) => {
            assert_eq!(e.tag, "999456000");
            assert_eq!(e.error_type, ErrorType::VehicleDisconnected);
            assert_eq!(e.error_type.to_string(), "vehicle_disconnected");
        }
        other => panic!("{other:?}"),
    }
    assert_eq!(turn.done, None);
    assert_eq!(connection.fields_of(guid), None);
    // No further line goes out for that vehicle.
    let turn = connection.handle_socket_internal(
        SocketEvent::Sample { vehicle_id: guid, data: StreamingData::new(guid, 5) },
        &config,
        &fleet,
    );
    assert_eq!(turn.send, None);
}

#[test]
fn how_a_connection_ends() {
    let config = config();
    let fleet = fleet();
    let mut connection = Connection::new();
    connection.insert(VehicleGuid::new(1), Vec::new());
    for event in [SocketEvent::Ping, SocketEvent::Pong, SocketEvent::Message(None)] {
        assert_eq!(connection.handle_socket_internal(event, &config, &fleet), nothing());
    }
    for event in [SocketEvent::Close, SocketEvent::End] {
        let turn = connection.handle_socket_internal(event, &config, &fleet);
        assert_eq!(turn, Turn { send: None, subscribe: None, done: Some(Ok(())) });
    }
    let silent = |text: &str| Turn {
        send: None,
        subscribe: None,
        done: Some(Err(SocketError::NotReportableError(text.to_string()))),
    };
    assert_eq!(
        connection.handle_socket_internal(SocketEvent::Undecodable, &config, &fleet),
        silent("Could not parse message")
    );
    assert_eq!(
        connection.handle_socket_internal(SocketEvent::ReceiveFailed, &config, &fleet),
        silent("Error receiving message")
    );
    assert_eq!(
        connection.handle_socket_internal(SocketEvent::SendFailed, &config, &fleet),
        silent("Could not send message")
    );
    assert_eq!(connection.subscriptions.len(), 1);

    let farewell = handle_socket(Ok(()));
    assert!(farewell.close && farewell.send.is_none());
    let farewell = handle_socket(Err(SocketError::NotReportableError("gone".to_string())));
    assert!(!farewell.close && farewell.send.is_none());
    let error = client_error("1", "Invalid token");
    let farewell = handle_socket(Err(SocketError::ReportableError(error.clone())));
    assert!(!farewell.close);
    assert_eq!(farewell.send, Some(send_error(error)));
}

#[test]
fn messages_travel_under_their_type() {
    assert_eq!(subscribe("", "", "").msg_type(), "data:subscribe_oauth");
    assert_eq!(
        ToServerStreamingMessage::DataUnsubscribe { tag: String::new() }.msg_type(),
        "data:unsubscribe"
    );
    assert_eq!(FromServerStreamingMessage::hello().msg_type(), "control:hello");
    assert_eq!(
        FromServerStreamingMessage::data_update(VehicleGuid::new(7), "1,2".to_string()),
        FromServerStreamingMessage::DataUpdate { tag: "7".to_string(), value: "1,2".to_string() }
    );
    assert_eq!(
        FromServerStreamingMessage::data_update(VehicleGuid::new(7), String::new()).msg_type(),
        "data:update"
    );
    let error = DataError::new("7", ErrorType::VehicleError, "smoke");
    assert_eq!(error.to_string(), "DataError { tag: 7, error_type: VehicleError, value: smoke }");
    assert_eq!(FromServerStreamingMessage::DataError(error).msg_type(), "data:error");
    assert_eq!(ErrorType::VehicleError.to_string(), "vehicle_error");
    assert_eq!(ErrorType::ClientError.to_string(), "client_error");
}

#[test]
fn a_token_that_did_not_pass_counts_for_no_claims() {
    let fleet = fleet();
    let config = config();
    let message = subscribe("a.b.c", "speed,soc", "999456000");
    let expected = report(client_error("999456000", "Invalid token"));
    assert_eq!(
        decide_validated(&message, validate_access_token("a.b.c", &config), &fleet),
        expected
    );
    assert_eq!(
        decide_validated(&message, Err(TokenValidationError::MalformedClaims), &fleet),
        expected
    );
    assert_eq!(
        decide_validated(&message, Err(TokenValidationError::WrongTokenType), &fleet),
        expected
    );
    assert_eq!(process_client_message(&message, &config, &fleet), expected);
    // A refresh token is no access token.
    let pair = Token::new(&config, &ScopeSet::all()).unwrap();
    let message = subscribe(&pair.refresh_token, "speed,soc", "999456000");
    assert_eq!(
        process_client_message(&message, &config, &fleet),
        report(client_error("999456000", "Invalid token"))
    );
    // A token that passed is decided for its claims.
    let all = AccessClaims { purpose: Purpose::Access, exp: 0, scopes: ScopeSet::all() };
    assert_eq!(
        decide_validated(&message, Ok(all), &fleet),
        decide_request(&message, Some(all), &fleet)
    );
    let poor = AccessClaims { purpose: Purpose::Access, exp: 0, scopes: ScopeSet::new() };
    assert_eq!(
        decide_validated(&message, Ok(poor), &fleet),
        report(client_error("999456000", "Invalid scope"))
    );
    // To end a subscription takes no token.
    let message = ToServerStreamingMessage::DataUnsubscribe { tag: "999456000".to_string() };
    assert_eq!(
        decide_validated(&message, Err(TokenValidationError::MalformedClaims), &fleet),
        Ok(ClientRequest::Unsubscribe(VehicleGuid::new(999_456_000)))
    );
}
