use fake_luxury_api::decimal::Decimal;
use fake_luxury_api::number::{parse_integer, render_int};
use fake_luxury_api::simulator::SimulationStateEnum;
use fake_luxury_api::text::{join_with, split_on, split_once, strip_prefix};
use fake_luxury_api::types::{ParseIdError, ShiftState, VehicleGuid, VehicleId, VehicleStateEnum};
use fake_luxury_api::vehicle_data::VehicleDataEndpoint;

#[test]
fn test_serialize_shift_state() {
    let serialized = serde_json::to_string(&ShiftState::Drive.to_string()).unwrap();
    assert_eq!(serialized, "\"D\"");
}

#[test]
fn test_serialize_shift_state_unknown() {
    let shift_state = ShiftState::Unknown("XX".to_string());
    let serialized = serde_json::to_string(&shift_state.to_string()).unwrap();
    assert_eq!(serialized, "\"XX\"");
}

#[test]
fn test_deserialize_shift_state() {
    let text: String = serde_json::from_str("\"D\"").unwrap();
    let deserialized = ShiftState::from_str(&text).unwrap();
    assert_eq!(deserialized, ShiftState::Drive);
}

#[test]
fn test_deserialize_shift_state_unknown() {
    let text: String = serde_json::from_str("\"XX\"").unwrap();
    let deserialized = ShiftState::from_str(&text).unwrap();
    assert_eq!(deserialized, ShiftState::Unknown("XX".to_string()));
}

#[test]
fn shift_state_letters() {
    assert_eq!(ShiftState::Park.to_string(), "P");
    assert_eq!(ShiftState::Drive.to_string(), "D");
    assert_eq!(ShiftState::Reverse.to_string(), "R");
    assert_eq!(ShiftState::from_str("P"), Ok(ShiftState::Park));
    assert_eq!(ShiftState::from_str("R"), Ok(ShiftState::Reverse));
    assert_eq!(ShiftState::from_str(""), Ok(ShiftState::Unknown(String::new())));
    assert_eq!(ShiftState::from_str("p"), Ok(ShiftState::Unknown("p".to_string())));
}

#[test]
fn vehicle_id_is_rendered_in_decimal() {
    assert_eq!(VehicleId::new(123_456_000).to_string(), "123456000");
    assert_eq!(VehicleGuid::new(999_456_000).to_string(), "999456000");
    assert_eq!(VehicleId::new(0).to_string(), "0");
    assert_eq!(VehicleId::new(u64::MAX).to_string(), "18446744073709551615");
}

#[test]
fn vehicle_id_is_read_from_decimal() {
    assert_eq!(VehicleId::from_str("123456000"), Ok(VehicleId::new(123_456_000)));
    assert_eq!(VehicleGuid::from_str("999456000"), Ok(VehicleGuid::new(999_456_000)));
    assert_eq!(VehicleId::from_str("+5"), Ok(VehicleId::new(5)));
    assert_eq!(VehicleId::from_str("007"), Ok(VehicleId::new(7)));
    assert_eq!(VehicleId::from_str("18446744073709551615"), Ok(VehicleId::new(u64::MAX)));
    assert_eq!(VehicleId::from_str("18446744073709551616"), Err(ParseIdError));
    assert_eq!(VehicleId::from_str(""), Err(ParseIdError));
    assert_eq!(VehicleId::from_str("+"), Err(ParseIdError));
    assert_eq!(VehicleId::from_str("-1"), Err(ParseIdError));
    assert_eq!(VehicleId::from_str("12a"), Err(ParseIdError));
    assert_eq!(VehicleGuid::from_str(" 1"), Err(ParseIdError));
}

#[test]
fn two_identifier_kinds_agree_with_std() {
    for text in ["0", "42", "+42", "0042", "-0", "4 2", "", "99999999999999999999"] {
        let expected = text.parse::<u64>().ok();
        assert_eq!(VehicleId::from_str(text).ok().map(|v| v.0), expected, "{text:?}");
    }
}

#[test]
fn integers_are_rendered_and_read() {
    assert_eq!(render_int(0), "0");
    assert_eq!(render_int(-42), "-42");
    assert_eq!(render_int(1_700_000_000_000), "1700000000000");
    assert_eq!(render_int(i64::MIN as i128), "-9223372036854775808");
    assert_eq!(parse_integer("-42", -100, 100), Some(-42));
    assert_eq!(parse_integer("-101", -100, 100), None);
    assert_eq!(parse_integer("100", -100, 100), Some(100));
    assert_eq!(parse_integer("101", -100, 100), None);
    assert_eq!(parse_integer("-0", -100, 100), Some(0));
    assert_eq!(parse_integer("-0", 0, 100), None);
    assert_eq!(parse_integer("-", -100, 100), None);
    assert_eq!(parse_integer("1-", -100, 100), None);
    assert_eq!(
        parse_integer("-9223372036854775808", i64::MIN as i128, i64::MAX as i128),
        Some(i64::MIN as i128)
    );
    assert_eq!(parse_integer("9223372036854775808", i64::MIN as i128, i64::MAX as i128), None);
}

#[test]
fn integers_agree_with_std() {
    for text in ["0", "255", "256", "+1", "-1", "", "+", "1.0", "০"] {
        assert_eq!(
            parse_integer(text, 0, 255).map(|v| v as u8),
            text.parse::<u8>().ok(),
            "{text:?}"
        );
        assert_eq!(
            parse_integer(text, i32::MIN as i128, i32::MAX as i128).map(|v| v as i32),
            text.parse::<i32>().ok(),
            "{text:?}"
        );
    }
}

#[test]
fn decimals_are_rendered_without_trailing_zeros() {
    assert_eq!(Decimal::from_units(60).to_string(), "60");
    assert_eq!(Decimal::from_micros(0).to_string(), "0");
    assert_eq!(Decimal::from_micros(-500_000).to_string(), "-0.5");
    assert_eq!(Decimal::from_micros(37_776_549).to_string(), "37.776549");
    assert_eq!(Decimal::from_micros(-122_419_541).to_string(), "-122.419541");
    assert_eq!(Decimal::from_micros(1_000_001).to_string(), "1.000001");
    assert_eq!(Decimal::from_micros(1_100_000).to_string(), "1.1");
    assert_eq!(Decimal::from_micros(1).to_string(), "0.000001");
    assert_eq!(Decimal::from_micros(i64::MAX).to_string(), "9223372036854.775807");
    assert_eq!(Decimal::from_micros(i64::MIN).to_string(), "-9223372036854.775808");
}

#[test]
fn decimals_are_read() {
    assert_eq!(Decimal::from_str("60"), Some(Decimal::from_micros(60_000_000)));
    assert_eq!(Decimal::from_str("1.5"), Some(Decimal::from_micros(1_500_000)));
    assert_eq!(Decimal::from_str("1."), Some(Decimal::from_micros(1_000_000)));
    assert_eq!(Decimal::from_str("+2"), Some(Decimal::from_micros(2_000_000)));
    assert_eq!(Decimal::from_str("-0.5"), Some(Decimal::from_micros(-500_000)));
    assert_eq!(Decimal::from_str("1.1234567"), Some(Decimal::from_micros(1_123_456)));
    assert_eq!(Decimal::from_str("0.000001"), Some(Decimal::from_micros(1)));
    assert_eq!(Decimal::from_str(""), None);
    assert_eq!(Decimal::from_str("."), None);
    assert_eq!(Decimal::from_str(".5"), None);
    assert_eq!(Decimal::from_str("abc"), None);
    assert_eq!(Decimal::from_str("1.2.3"), None);
    assert_eq!(Decimal::from_str("1,5"), None);
    assert_eq!(Decimal::from_str("1e3"), None);
    assert_eq!(Decimal::from_str("9223372036854.775807"), Some(Decimal::from_micros(i64::MAX)));
    assert_eq!(Decimal::from_str("9223372036854.775808"), None);
    assert_eq!(Decimal::from_str("-9223372036854.775808"), Some(Decimal::from_micros(i64::MIN)));
    assert_eq!(Decimal::from_str("-9223372036854.775809"), None);
    assert_eq!(Decimal::from_str("99999999999999999999999"), None);
}

#[test]
fn decimals_survive_their_text() {
    for micros in [0, 1, -1, 10, 999_999, 1_000_000, 84_000_000, -122_419_541, i64::MAX, i64::MIN] {
        let d = Decimal::from_micros(micros);
        assert_eq!(Decimal::from_str(&d.to_string()), Some(d));
    }
}

#[test]
fn simulation_states_are_named() {
    assert_eq!(SimulationStateEnum::from_str("driving"), Ok(SimulationStateEnum::Driving));
    assert_eq!(SimulationStateEnum::from_str("charging"), Ok(SimulationStateEnum::Charging));
    assert_eq!(SimulationStateEnum::from_str("idle"), Ok(SimulationStateEnum::Idle));
    assert_eq!(SimulationStateEnum::from_str("idle_no_sleep"), Ok(SimulationStateEnum::IdleNoSleep));
    assert_eq!(SimulationStateEnum::from_str("sleeping"), Ok(SimulationStateEnum::Sleeping));
    assert_eq!(
        SimulationStateEnum::from_str("flying"),
        Err("Unknown simulation state: flying".to_string())
    );
    assert_eq!(SimulationStateEnum::IdleNoSleep.to_string(), "idle_no_sleep");
}

#[test]
fn a_sleeping_vehicle_is_offline() {
    assert_eq!(VehicleStateEnum::from(SimulationStateEnum::Sleeping), VehicleStateEnum::Offline);
    for state in [
        SimulationStateEnum::Driving,
        SimulationStateEnum::Charging,
        SimulationStateEnum::Idle,
        SimulationStateEnum::IdleNoSleep,
    ] {
        assert_eq!(VehicleStateEnum::from(state), VehicleStateEnum::Online);
    }
}

#[test]
fn endpoints_are_named() {
    let names = [
        (VehicleDataEndpoint::ChargeState, "charge_state"),
        (VehicleDataEndpoint::ClimateState, "climate_state"),
        (VehicleDataEndpoint::ClosuresState, "closures_state"),
        (VehicleDataEndpoint::DriveState, "drive_state"),
        (VehicleDataEndpoint::GuiSettings, "gui_settings"),
        (VehicleDataEndpoint::LocationData, "location_data"),
        (VehicleDataEndpoint::VehicleConfig, "vehicle_config"),
        (VehicleDataEndpoint::VehicleState, "vehicle_state"),
        (VehicleDataEndpoint::VehicleDataCombo, "vehicle_data_combo"),
    ];
    for (endpoint, name) in names {
        assert_eq!(endpoint.to_string(), name);
        assert_eq!(VehicleDataEndpoint::from_str(name), Ok(endpoint));
    }
    assert_eq!(
        VehicleDataEndpoint::from_str("tyres"),
        Err("Invalid endpoint: tyres".to_string())
    );
}

#[test]
fn texts_are_split_and_joined() {
    assert_eq!(split_on("a,b,,c", ','), vec!["a", "b", "", "c"]);
    assert_eq!(split_on("", ','), vec![""]);
    assert_eq!(split_on("a,", ','), vec!["a", ""]);
    assert_eq!(split_on(",", ','), vec!["", ""]);
    assert_eq!(split_on("héllo;wörld", ';'), vec!["héllo", "wörld"]);
    let parts = vec!["a".to_string(), String::new(), "c".to_string()];
    assert_eq!(join_with(&parts, ","), "a,,c");
    assert_eq!(join_with(&Vec::new(), ","), "");
    assert_eq!(split_on(&join_with(&parts, ","), ','), parts);
    assert_eq!(strip_prefix("prefix and rest", "prefix"), Some(" and rest"));
    assert_eq!(strip_prefix("pre", "prefix"), None);
    assert_eq!(split_once("key=value=more", '='), Some(("key", "value=more")));
    assert_eq!(split_once("none", '='), None);
}
