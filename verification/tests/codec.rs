use fake_luxury_api::decimal::Decimal;
use fake_luxury_api::streaming::{
    deserialize_field_names, deserialize_fields, parse_field, push_data, serialize_field_names,
    serialize_fields, StreamingData, StreamingFieldError, StreamingFields,
};
use fake_luxury_api::types::{ShiftState, VehicleGuid};

fn all_fields() -> Vec<StreamingFields> {
    vec![
        StreamingFields::Speed,
        StreamingFields::Odometer,
        StreamingFields::Soc,
        StreamingFields::Elevation,
        StreamingFields::EstHeading,
        StreamingFields::EstLat,
        StreamingFields::EstLng,
        StreamingFields::Power,
        StreamingFields::ShiftState,
        StreamingFields::Range,
        StreamingFields::EstRange,
        StreamingFields::Heading,
    ]
}

fn full_sample() -> StreamingData {
    let mut data = StreamingData::new(VehicleGuid::new(999_456_000), 1_700_000_000_123);
    data.speed = Some(Decimal::from_units(60));
    data.odometer = Some(Decimal::from_micros(12_345_600_000));
    data.soc = Some(42);
    data.elevation = Some(120);
    data.est_heading = Some(270);
    data.est_lat = Some(Decimal::from_micros(37_776_549));
    data.est_lng = Some(Decimal::from_micros(-122_419_541));
    data.power = Some(-500);
    data.shift_state = Some(ShiftState::Drive);
    data.range = Some(Decimal::from_units(84));
    data.est_range = Some(Decimal::from_micros(83_500_000));
    data.heading = Some(271);
    data
}

#[test]
fn field_names_are_read_leniently() {
    assert_eq!(
        deserialize_field_names("speed,odometer,soc,est_lat,est_lng"),
        vec![
            StreamingFields::Speed,
            StreamingFields::Odometer,
            StreamingFields::Soc,
            StreamingFields::EstLat,
            StreamingFields::EstLng,
        ]
    );
    assert_eq!(
        deserialize_field_names("speed,warp,soc,,Speed, soc"),
        vec![StreamingFields::Speed, StreamingFields::Soc]
    );
    assert_eq!(deserialize_field_names(""), Vec::new());
    assert_eq!(
        deserialize_field_names("heading,heading"),
        vec![StreamingFields::Heading, StreamingFields::Heading]
    );
}

#[test]
fn every_field_is_found_by_its_name() {
    let names = [
        "speed",
        "odometer",
        "soc",
        "elevation",
        "est_heading",
        "est_lat",
        "est_lng",
        "power",
        "shift_state",
        "range",
        "est_range",
        "heading",
    ];
    for (field, name) in all_fields().into_iter().zip(names) {
        assert_eq!(field.to_string(), name);
        assert_eq!(StreamingFields::from_str(name), Ok(field));
    }
    assert_eq!(StreamingFields::from_str("Speed"), Err(()));
    assert_eq!(
        serialize_field_names(&all_fields()),
        "speed,odometer,soc,elevation,est_heading,est_lat,est_lng,power,shift_state,range,est_range,heading"
    );
    assert_eq!(deserialize_field_names(&serialize_field_names(&all_fields())), all_fields());
}

#[test]
fn a_sample_is_written_as_a_line() {
    let data = full_sample();
    assert_eq!(
        serialize_fields(&all_fields(), &data),
        "1700000000123,60,12345.6,42,120,270,37.776549,-122.419541,-500,D,84,83.5,271"
    );
    let fields = vec![StreamingFields::Soc, StreamingFields::Speed, StreamingFields::Soc];
    assert_eq!(serialize_fields(&fields, &data), "1700000000123,42,60,42");
    assert_eq!(serialize_fields(&Vec::new(), &data), "1700000000123");
}

#[test]
fn an_unknown_value_is_written_as_nothing() {
    let data = StreamingData::new(VehicleGuid::new(1), -5);
    assert_eq!(serialize_fields(&all_fields(), &data), "-5,,,,,,,,,,,,");
    let mut pieces = vec!["t".to_string()];
    push_data(&mut pieces, None);
    push_data(&mut pieces, Some("x".to_string()));
    assert_eq!(pieces, vec!["t", "", "x"]);
}

#[test]
fn a_line_has_one_value_per_field_after_the_time() {
    let fields = deserialize_field_names("speed,odometer,soc,est_lat,est_lng");
    let line = serialize_fields(&fields, &full_sample());
    assert_eq!(line.split(',').count(), 6);
    assert_eq!(line, "1700000000123,60,12345.6,42,37.776549,-122.419541");
}

#[test]
fn a_line_is_read_as_a_sample() {
    let id = VehicleGuid::new(999_456_000);
    let line = "1700000000123,60,12345.6,42,120,270,37.776549,-122.419541,-500,D,84,83.5,271";
    assert_eq!(deserialize_fields(id, line, &all_fields()), Ok(full_sample()));
}

#[test]
fn writing_and_reading_restricts_a_sample_to_the_fields() {
    let id = VehicleGuid::new(999_456_000);
    let fields = vec![StreamingFields::Soc, StreamingFields::ShiftState, StreamingFields::EstLng];
    let line = serialize_fields(&fields, &full_sample());
    let mut expected = StreamingData::new(id, 1_700_000_000_123);
    expected.soc = Some(42);
    expected.shift_state = Some(ShiftState::Drive);
    expected.est_lng = Some(Decimal::from_micros(-122_419_541));
    assert_eq!(deserialize_fields(id, &line, &fields), Ok(expected));

    let blank = StreamingData::new(id, 0);
    let line = serialize_fields(&all_fields(), &blank);
    assert_eq!(deserialize_fields(id, &line, &all_fields()), Ok(blank));
}

#[test]
fn an_unknown_gear_survives_unless_it_looks_like_something_else() {
    let id = VehicleGuid::new(1);
    let fields = vec![StreamingFields::ShiftState];
    let mut data = StreamingData::new(id, 7);
    data.shift_state = Some(ShiftState::Unknown("N".to_string()));
    let line = serialize_fields(&fields, &data);
    assert_eq!(line, "7,N");
    assert_eq!(deserialize_fields(id, &line, &fields), Ok(data));

    let mut hidden = StreamingData::new(id, 7);
    hidden.shift_state = Some(ShiftState::Unknown("P".to_string()));
    let read = deserialize_fields(id, &serialize_fields(&fields, &hidden), &fields).unwrap();
    assert_eq!(read.shift_state, Some(ShiftState::Park));

    let mut empty = StreamingData::new(id, 7);
    empty.shift_state = Some(ShiftState::Unknown(String::new()));
    let read = deserialize_fields(id, &serialize_fields(&fields, &empty), &fields).unwrap();
    assert_eq!(read.shift_state, None);
}

#[test]
fn fewer_values_than_fields_leave_the_rest_unknown() {
    let id = VehicleGuid::new(1);
    let read = deserialize_fields(id, "5,60", &all_fields()).unwrap();
    let mut expected = StreamingData::new(id, 5);
    expected.speed = Some(Decimal::from_units(60));
    assert_eq!(read, expected);
    assert_eq!(deserialize_fields(id, "5", &all_fields()), Ok(StreamingData::new(id, 5)));
}

#[test]
fn a_surplus_value_is_reported_with_its_index() {
    let id = VehicleGuid::new(1);
    let fields = vec![StreamingFields::Speed, StreamingFields::Soc];
    assert_eq!(
        deserialize_fields(id, "5,60,42,99", &fields),
        Err(StreamingFieldError::FieldMissingError(2))
    );
    assert_eq!(
        deserialize_fields(id, "5,", &Vec::new()),
        Err(StreamingFieldError::FieldMissingError(0))
    );
}

#[test]
fn a_value_that_does_not_fit_is_reported_with_its_field() {
    let id = VehicleGuid::new(1);
    let fields = vec![StreamingFields::Speed, StreamingFields::Soc, StreamingFields::Power];
    assert_eq!(
        deserialize_fields(id, "5,60,256,1", &fields),
        Err(StreamingFieldError::FieldError(StreamingFields::Soc, 1, "256".to_string()))
    );
    assert_eq!(
        deserialize_fields(id, "5,fast,1,1", &fields),
        Err(StreamingFieldError::FieldError(StreamingFields::Speed, 0, "fast".to_string()))
    );
    assert_eq!(
        deserialize_fields(id, "5,1,1,2147483648", &fields),
        Err(StreamingFieldError::FieldError(StreamingFields::Power, 2, "2147483648".to_string()))
    );
    let read = deserialize_fields(id, "5,1,1,-2147483648", &fields).unwrap();
    assert_eq!(read.power, Some(i32::MIN));
    // The first failure wins, also over a surplus value further on.
    assert_eq!(
        deserialize_fields(id, "5,x,y,z,w", &fields),
        Err(StreamingFieldError::FieldError(StreamingFields::Speed, 0, "x".to_string()))
    );
}

#[test]
fn a_line_without_a_time_is_reported() {
    let id = VehicleGuid::new(1);
    assert_eq!(
        deserialize_fields(id, "", &all_fields()),
        Err(StreamingFieldError::InvalidTime(String::new()))
    );
    assert_eq!(
        deserialize_fields(id, "soon,60", &all_fields()),
        Err(StreamingFieldError::InvalidTime("soon".to_string()))
    );
    assert_eq!(
        deserialize_fields(id, "9223372036854775808", &all_fields()),
        Err(StreamingFieldError::InvalidTime("9223372036854775808".to_string()))
    );
    assert_eq!(
        deserialize_fields(id, "-9223372036854775808", &all_fields()).map(|d| d.time),
        Ok(i64::MIN)
    );
}

#[test]
fn a_single_field_is_set_from_its_text() {
    let mut data = StreamingData::new(VehicleGuid::new(1), 0);
    assert_eq!(parse_field(&mut data, "65535", &StreamingFields::Heading, 4), Ok(()));
    assert_eq!(data.heading, Some(u16::MAX));
    assert_eq!(
        parse_field(&mut data, "65536", &StreamingFields::Heading, 4),
        Err(StreamingFieldError::FieldError(StreamingFields::Heading, 4, "65536".to_string()))
    );
    assert_eq!(data.heading, Some(u16::MAX));
    assert_eq!(parse_field(&mut data, "", &StreamingFields::Heading, 4), Ok(()));
    assert_eq!(data.heading, None);
    assert_eq!(parse_field(&mut data, "4294967295", &StreamingFields::Elevation, 0), Ok(()));
    assert_eq!(data.elevation, Some(u32::MAX));
    assert_eq!(parse_field(&mut data, "R", &StreamingFields::ShiftState, 0), Ok(()));
    assert_eq!(data.shift_state, Some(ShiftState::Reverse));
}

#[test]
fn reading_errors_are_put_in_words() {
    assert_eq!(
        StreamingFieldError::InvalidTime("soon".to_string()).to_string(),
        "Invalid Time 'soon'"
    );
    assert_eq!(
        StreamingFieldError::FieldMissingError(3).to_string(),
        "Field '3' was not expected"
    );
    assert_eq!(
        StreamingFieldError::FieldError(StreamingFields::EstLat, 5, "north".to_string())
            .to_string(),
        "Error with field 'EstLat' number '5' value 'north'"
    );
}

#[test]
fn the_order_of_samples_in_time_survives_the_line() {
    let id = VehicleGuid::new(9);
    let fields = deserialize_field_names("speed,soc");
    let mut last = i64::MIN;
    for time in [-3, 0, 0, 1_700_000_000_000, 1_700_000_001_000] {
        let mut data = StreamingData::new(id, time);
        data.soc = Some(50);
        let read = deserialize_fields(id, &serialize_fields(&fields, &data), &fields).unwrap();
        assert_eq!(read.time, time);
        assert!(last <= read.time);
        last = read.time;
    }
}
