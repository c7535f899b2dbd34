//! The streaming interface: the messages that travel over the socket, the
//! telemetry sample, and the line format that carries a sample.
//!
//! A sample travels as one line `t,v1,v2,…,vN`: `t` is the time of the sample
//! and `vi` the value of the `i`-th field that the subscriber asked for. An
//! empty value stands for "not known".

use crate::decimal::{decimal_text, parse_decimal, Decimal};
use crate::number::{int_text, parse_int, parse_integer, render_int};
use crate::text::{join, join_with, split, split_on, str_eq, views};
use crate::types::{shift_of_text, shift_text, ShiftState, ShiftStateView, Timestamp, VehicleGuid};
use vstd::prelude::*;
use vstd::string::*;

verus! {

/// Who is to blame for a streaming error.
#[derive(Debug, Clone, Copy, PartialEq, Eq, Structural)]
pub enum ErrorType {
    VehicleDisconnected,
    VehicleError,
    ClientError,
}

/// The wire name of an error type.
pub open spec fn error_type_name(e: ErrorType) -> Seq<char> {
    match e {
        ErrorType::VehicleDisconnected => "vehicle_disconnected"@,
        ErrorType::VehicleError => "vehicle_error"@,
        ErrorType::ClientError => "client_error"@,
    }
}

impl ErrorType {
    /// The wire name.
    pub fn to_string(&self) -> (r: String)
        ensures
            r@ == error_type_name(*self),
    {
        match self {
            ErrorType::VehicleDisconnected => "vehicle_disconnected".to_owned(),
            ErrorType::VehicleError => "vehicle_error".to_owned(),
            ErrorType::ClientError => "client_error".to_owned(),
        }
    }

    /// The name used when an error is shown to a person.
    pub fn debug_name(&self) -> (r: &'static str)
        ensures
            r@ == (match *self {
                ErrorType::VehicleDisconnected => "VehicleDisconnected"@,
                ErrorType::VehicleError => "VehicleError"@,
                ErrorType::ClientError => "ClientError"@,
            }),
    {
        match self {
            ErrorType::VehicleDisconnected => "VehicleDisconnected",
            ErrorType::VehicleError => "VehicleError",
            ErrorType::ClientError => "ClientError",
        }
    }
}

/// An error reported to a streaming client: the subscription it is about,
/// who is to blame, and a message.
#[derive(Debug, PartialEq, Eq)]
pub struct DataError {
    pub tag: String,
    pub error_type: ErrorType,
    pub value: String,
}

impl Clone for DataError {
    fn clone(&self) -> (r: Self)
        ensures
            r == *self,
    {
        DataError {
            tag: self.tag.clone(),
            error_type: self.error_type,
            value: self.value.clone(),
        }
    }
}

impl DataError {
    /// The error about the subscription `tag` with the given blame and
    /// message.
    pub fn new(tag: &str, error_type: ErrorType, value: &str) -> (r: Self)
        ensures
            r.tag@ == tag@,
            r.error_type == error_type,
            r.value@ == value@,
    {
        DataError { tag: tag.to_owned(), error_type, value: value.to_owned() }
    }

    /// The error for a vehicle that cannot be reached, tagged with its
    /// streaming identifier.
    pub fn disconnected(vehicle_id: VehicleGuid) -> (r: Self)
        ensures
            r.tag@ == int_text(vehicle_id.0 as int),
            r.error_type == ErrorType::VehicleDisconnected,
            r.value@ == "disconnected"@,
    {
        DataError {
            tag: vehicle_id.to_string(),
            error_type: ErrorType::VehicleDisconnected,
            value: "disconnected".to_owned(),
        }
    }

    /// The error as shown to a person.
    pub fn to_string(&self) -> (r: String)
        ensures
            r@ == "DataError { tag: "@ + self.tag@ + ", error_type: "@ + (match self.error_type {
                ErrorType::VehicleDisconnected => "VehicleDisconnected"@,
                ErrorType::VehicleError => "VehicleError"@,
                ErrorType::ClientError => "ClientError"@,
            }) + ", value: "@ + self.value@ + " }"@,
    {
        let mut out: String = "DataError { tag: ".to_owned();
        out.append(self.tag.as_str());
        out.append(", error_type: ");
        out.append(self.error_type.debug_name());
        out.append(", value: ");
        out.append(self.value.as_str());
        out.append(" }");
        out
    }
}

/// What a client may send.
#[derive(Debug, PartialEq, Eq)]
pub enum ToServerStreamingMessage {
    /// Subscribe to the vehicle named by `tag`, for the fields named in
    /// `value`, on the strength of `token`.
    DataSubscribeOauth { token: String, value: String, tag: String },
    /// Stop the subscription to the vehicle named by `tag`.
    DataUnsubscribe { tag: String },
}

/// The `msg_type` of a client message.
pub open spec fn to_server_type(m: ToServerStreamingMessage) -> Seq<char> {
    match m {
        ToServerStreamingMessage::DataSubscribeOauth { .. } => "data:subscribe_oauth"@,
        ToServerStreamingMessage::DataUnsubscribe { .. } => "data:unsubscribe"@,
    }
}

impl ToServerStreamingMessage {
    /// The `msg_type` under which the message travels.
    pub fn msg_type(&self) -> (r: &'static str)
        ensures
            r@ == to_server_type(*self),
    {
        match self {
            ToServerStreamingMessage::DataSubscribeOauth { .. } => "data:subscribe_oauth",
            ToServerStreamingMessage::DataUnsubscribe { .. } => "data:unsubscribe",
        }
    }
}

/// The time, in milliseconds, that the greeting promises the connection may
/// stay idle.
pub const CONNECTION_TIMEOUT: u64 = 30000;

/// What the server may send.
#[derive(Debug, PartialEq, Eq)]
pub enum FromServerStreamingMessage {
    /// The greeting, sent once when the connection opens.
    ControlHello { connection_timeout: u64 },
    /// One sample of the vehicle named by `tag`, as a line in `value`.
    DataUpdate { tag: String, value: String },
    DataError(DataError),
}

/// The `msg_type` of a server message.
pub open spec fn from_server_type(m: FromServerStreamingMessage) -> Seq<char> {
    match m {
        FromServerStreamingMessage::ControlHello { .. } => "control:hello"@,
        FromServerStreamingMessage::DataUpdate { .. } => "data:update"@,
        FromServerStreamingMessage::DataError(_) => "data:error"@,
    }
}

impl FromServerStreamingMessage {
    /// The `msg_type` under which the message travels.
    pub fn msg_type(&self) -> (r: &'static str)
        ensures
            r@ == from_server_type(*self),
    {
        match self {
            FromServerStreamingMessage::ControlHello { .. } => "control:hello",
            FromServerStreamingMessage::DataUpdate { .. } => "data:update",
            FromServerStreamingMessage::DataError(_) => "data:error",
        }
    }

    /// The greeting.
    pub fn hello() -> (r: Self)
        ensures
            r == (FromServerStreamingMessage::ControlHello { connection_timeout: 30000 }),
    {
        FromServerStreamingMessage::ControlHello { connection_timeout: CONNECTION_TIMEOUT }
    }

    /// A sample line for the vehicle `vehicle_id`.
    pub fn data_update(vehicle_id: VehicleGuid, value: String) -> (r: Self)
        ensures
            r matches FromServerStreamingMessage::DataUpdate { tag, value: v } && tag@ == int_text(
                vehicle_id.0 as int,
            ) && v == value,
    {
        FromServerStreamingMessage::DataUpdate { tag: vehicle_id.to_string(), value }
    }
}

/// The fields of a sample that a subscriber can ask for.
#[derive(Debug, Clone, Copy, PartialEq, Eq, Structural)]
pub enum StreamingFields {
    Speed,
    Odometer,
    Soc,
    Elevation,
    EstHeading,
    EstLat,
    EstLng,
    Power,
    ShiftState,
    Range,
    EstRange,
    Heading,
}

/// The name of a field in a subscription.
pub open spec fn field_name(f: StreamingFields) -> Seq<char> {
    match f {
        StreamingFields::Speed => "speed"@,
        StreamingFields::Odometer => "odometer"@,
        StreamingFields::Soc => "soc"@,
        StreamingFields::Elevation => "elevation"@,
        StreamingFields::EstHeading => "est_heading"@,
        StreamingFields::EstLat => "est_lat"@,
        StreamingFields::EstLng => "est_lng"@,
        StreamingFields::Power => "power"@,
        StreamingFields::ShiftState => "shift_state"@,
        StreamingFields::Range => "range"@,
        StreamingFields::EstRange => "est_range"@,
        StreamingFields::Heading => "heading"@,
    }
}

/// The field that a name denotes, if any.
pub open spec fn field_of_name(name: Seq<char>) -> Option<StreamingFields> {
    if name == "speed"@ {
        Some(StreamingFields::Speed)
    } else if name == "odometer"@ {
        Some(StreamingFields::Odometer)
    } else if name == "soc"@ {
        Some(StreamingFields::Soc)
    } else if name == "elevation"@ {
        Some(StreamingFields::Elevation)
    } else if name == "est_heading"@ {
        Some(StreamingFields::EstHeading)
    } else if name == "est_lat"@ {
        Some(StreamingFields::EstLat)
    } else if name == "est_lng"@ {
        Some(StreamingFields::EstLng)
    } else if name == "power"@ {
        Some(StreamingFields::Power)
    } else if name == "shift_state"@ {
        Some(StreamingFields::ShiftState)
    } else if name == "range"@ {
        Some(StreamingFields::Range)
    } else if name == "est_range"@ {
        Some(StreamingFields::EstRange)
    } else if name == "heading"@ {
        Some(StreamingFields::Heading)
    } else {
        None
    }
}

/// The name used when a field is shown to a person.
pub open spec fn field_debug_name(f: StreamingFields) -> Seq<char> {
    match f {
        StreamingFields::Speed => "Speed"@,
        StreamingFields::Odometer => "Odometer"@,
        StreamingFields::Soc => "Soc"@,
        StreamingFields::Elevation => "Elevation"@,
        StreamingFields::EstHeading => "EstHeading"@,
        StreamingFields::EstLat => "EstLat"@,
        StreamingFields::EstLng => "EstLng"@,
        StreamingFields::Power => "Power"@,
        StreamingFields::ShiftState => "ShiftState"@,
        StreamingFields::Range => "Range"@,
        StreamingFields::EstRange => "EstRange"@,
        StreamingFields::Heading => "Heading"@,
    }
}

impl StreamingFields {
    /// Reads a field name.
    pub fn from_str(s: &str) -> (r: Result<Self, ()>)
        ensures
            r == match field_of_name(s@) {
                Some(f) => Ok::<StreamingFields, ()>(f),
                None => Err(()),
            },
    {
        if str_eq(s, "speed") {
            Ok(StreamingFields::Speed)
        } else if str_eq(s, "odometer") {
            Ok(StreamingFields::Odometer)
        } else if str_eq(s, "soc") {
            Ok(StreamingFields::Soc)
        } else if str_eq(s, "elevation") {
            Ok(StreamingFields::Elevation)
        } else if str_eq(s, "est_heading") {
            Ok(StreamingFields::EstHeading)
        } else if str_eq(s, "est_lat") {
            Ok(StreamingFields::EstLat)
        } else if str_eq(s, "est_lng") {
            Ok(StreamingFields::EstLng)
        } else if str_eq(s, "power") {
            Ok(StreamingFields::Power)
        } else if str_eq(s, "shift_state") {
            Ok(StreamingFields::ShiftState)
        } else if str_eq(s, "range") {
            Ok(StreamingFields::Range)
        } else if str_eq(s, "est_range") {
            Ok(StreamingFields::EstRange)
        } else if str_eq(s, "heading") {
            Ok(StreamingFields::Heading)
        } else {
            Err(())
        }
    }

    /// The name of the field in a subscription.
    pub fn to_string(&self) -> (r: String)
        ensures
            r@ == field_name(*self),
    {
        match self {
            StreamingFields::Speed => "speed".to_owned(),
            StreamingFields::Odometer => "odometer".to_owned(),
            StreamingFields::Soc => "soc".to_owned(),
            StreamingFields::Elevation => "elevation".to_owned(),
            StreamingFields::EstHeading => "est_heading".to_owned(),
            StreamingFields::EstLat => "est_lat".to_owned(),
            StreamingFields::EstLng => "est_lng".to_owned(),
            StreamingFields::Power => "power".to_owned(),
            StreamingFields::ShiftState => "shift_state".to_owned(),
            StreamingFields::Range => "range".to_owned(),
            StreamingFields::EstRange => "est_range".to_owned(),
            StreamingFields::Heading => "heading".to_owned(),
        }
    }

    /// The name used when the field is shown to a person.
    pub fn debug_name(&self) -> (r: &'static str)
        ensures
            r@ == field_debug_name(*self),
    {
        match self {
            StreamingFields::Speed => "Speed",
            StreamingFields::Odometer => "Odometer",
            StreamingFields::Soc => "Soc",
            StreamingFields::Elevation => "Elevation",
            StreamingFields::EstHeading => "EstHeading",
            StreamingFields::EstLat => "EstLat",
            StreamingFields::EstLng => "EstLng",
            StreamingFields::Power => "Power",
            StreamingFields::ShiftState => "ShiftState",
            StreamingFields::Range => "Range",
            StreamingFields::EstRange => "EstRange",
            StreamingFields::Heading => "Heading",
        }
    }
}

/// One sample of a vehicle's telemetry. Everything but the vehicle and the
/// time may be unknown.
#[derive(Debug, PartialEq, Eq)]
pub struct StreamingData {
    /// The vehicle.
    pub id: VehicleGuid,
    /// Unix timestamp in milliseconds.
    pub time: Timestamp,
    /// Speed in miles per hour.
    pub speed: Option<Decimal>,
    /// Odometer reading in km.
    pub odometer: Option<Decimal>,
    /// State of charge as a percentage.
    pub soc: Option<u8>,
    /// Elevation in meters.
    pub elevation: Option<u32>,
    /// Estimated heading in degrees.
    pub est_heading: Option<u16>,
    /// Estimated latitude in decimal degrees.
    pub est_lat: Option<Decimal>,
    /// Estimated longitude in decimal degrees.
    pub est_lng: Option<Decimal>,
    /// Power usage in watts.
    pub power: Option<i32>,
    /// The gear.
    pub shift_state: Option<ShiftState>,
    /// Estimated range in km.
    pub range: Option<Decimal>,
    /// Estimated range based on energy usage in km.
    pub est_range: Option<Decimal>,
    /// Heading in degrees.
    pub heading: Option<u16>,
}

/// A sample with the text of an unknown gear as a character sequence.
pub struct StreamingDataView {
    pub id: VehicleGuid,
    pub time: Timestamp,
    pub speed: Option<Decimal>,
    pub odometer: Option<Decimal>,
    pub soc: Option<u8>,
    pub elevation: Option<u32>,
    pub est_heading: Option<u16>,
    pub est_lat: Option<Decimal>,
    pub est_lng: Option<Decimal>,
    pub power: Option<i32>,
    pub shift_state: Option<ShiftStateView>,
    pub range: Option<Decimal>,
    pub est_range: Option<Decimal>,
    pub heading: Option<u16>,
}

impl View for StreamingData {
    type V = StreamingDataView;

    open spec fn view(&self) -> StreamingDataView {
        StreamingDataView {
            id: self.id,
            time: self.time,
            speed: self.speed,
            odometer: self.odometer,
            soc: self.soc,
            elevation: self.elevation,
            est_heading: self.est_heading,
            est_lat: self.est_lat,
            est_lng: self.est_lng,
            power: self.power,
            shift_state: match self.shift_state {
                Some(s) => Some(s@),
                None => None,
            },
            range: self.range,
            est_range: self.est_range,
            heading: self.heading,
        }
    }
}

/// The sample of `id` at `time` of which nothing else is known.
pub open spec fn blank_sample(id: VehicleGuid, time: Timestamp) -> StreamingDataView {
    StreamingDataView {
        id,
        time,
        speed: None,
        odometer: None,
        soc: None,
        elevation: None,
        est_heading: None,
        est_lat: None,
        est_lng: None,
        power: None,
        shift_state: None,
        range: None,
        est_range: None,
        heading: None,
    }
}

impl Clone for StreamingData {
    fn clone(&self) -> (r: Self)
        ensures
            r@ == self@,
    {
        StreamingData {
            id: self.id,
            time: self.time,
            speed: self.speed,
            odometer: self.odometer,
            soc: self.soc,
            elevation: self.elevation,
            est_heading: self.est_heading,
            est_lat: self.est_lat,
            est_lng: self.est_lng,
            power: self.power,
            shift_state: match &self.shift_state {
                Some(s) => Some(s.clone()),
                None => None,
            },
            range: self.range,
            est_range: self.est_range,
            heading: self.heading,
        }
    }
}

impl StreamingData {
    /// The sample of `id` at `time` of which nothing else is known.
    pub fn new(id: VehicleGuid, time: Timestamp) -> (r: Self)
        ensures
            r@ == blank_sample(id, time),
    {
        StreamingData {
            id,
            time,
            speed: None,
            odometer: None,
            soc: None,
            elevation: None,
            est_heading: None,
            est_lat: None,
            est_lng: None,
            power: None,
            shift_state: None,
            range: None,
            est_range: None,
            heading: None,
        }
    }
}

/// Why a line could not be read as a sample.
#[derive(Debug, PartialEq, Eq)]
pub enum StreamingFieldError {
    /// The time is not a number; the text that stood in its place.
    InvalidTime(String),
    /// The line holds a value for which no field was declared; its index.
    FieldMissingError(usize),
    /// A value does not fit its field: the field, its index and the value.
    FieldError(StreamingFields, usize, String),
}

/// A reading error with its text as a character sequence.
pub enum StreamingFieldErrorView {
    InvalidTime(Seq<char>),
    FieldMissingError(usize),
    FieldError(StreamingFields, usize, Seq<char>),
}

impl View for StreamingFieldError {
    type V = StreamingFieldErrorView;

    open spec fn view(&self) -> StreamingFieldErrorView {
        match *self {
            StreamingFieldError::InvalidTime(s) => StreamingFieldErrorView::InvalidTime(s@),
            StreamingFieldError::FieldMissingError(n) => StreamingFieldErrorView::FieldMissingError(
                n,
            ),
            StreamingFieldError::FieldError(f, n, s) => StreamingFieldErrorView::FieldError(
                f,
                n,
                s@,
            ),
        }
    }
}

impl StreamingFieldError {
    /// The error as shown to a person.
    pub fn to_string(&self) -> (r: String)
        ensures
            r@ == (match self@ {
                StreamingFieldErrorView::InvalidTime(s) => "Invalid Time '"@ + s + "'"@,
                StreamingFieldErrorView::FieldMissingError(n) => "Field '"@ + int_text(n as int)
                    + "' was not expected"@,
                StreamingFieldErrorView::FieldError(f, n, s) => "Error with field '"@
                    + field_debug_name(f) + "' number '"@ + int_text(n as int) + "' value '"@ + s
                    + "'"@,
            }),
    {
        match self {
            StreamingFieldError::InvalidTime(s) => {
                let mut out: String = "Invalid Time '".to_owned();
                out.append(s.as_str());
                out.append("'");
                out
            },
            StreamingFieldError::FieldMissingError(n) => {
                let mut out: String = "Field '".to_owned();
                let number: String = render_int(*n as i128);
                out.append(number.as_str());
                out.append("' was not expected");
                out
            },
            StreamingFieldError::FieldError(f, n, s) => {
                let mut out: String = "Error with field '".to_owned();
                out.append(f.debug_name());
                out.append("' number '");
                let number: String = render_int(*n as i128);
                out.append(number.as_str());
                out.append("' value '");
                out.append(s.as_str());
                out.append("'");
                out
            },
        }
    }
}

// ---------------------------------------------------------------------------
// Field lists
// ---------------------------------------------------------------------------
/// The fields named by the pieces of a subscription, in order; pieces that
/// name no field are passed over.
pub open spec fn fields_of_names(names: Seq<Seq<char>>) -> Seq<StreamingFields>
    decreases names.len(),
{
    if names.len() == 0 {
        Seq::empty()
    } else {
        let rest = fields_of_names(names.drop_last());
        match field_of_name(names.last()) {
            Some(f) => rest.push(f),
            None => rest,
        }
    }
}

/// Reads the comma-separated field list of a subscription. Names that are
/// not known are dropped.
pub fn deserialize_field_names(str: &str) -> (fields: Vec<StreamingFields>)
    ensures
        fields@ == fields_of_names(split(str@, ',')),
{
    let names: Vec<String> = split_on(str, ',');
    let mut fields: Vec<StreamingFields> = Vec::new();
    let mut i: usize = 0;
    assert(views(names@).subrange(0, 0) =~= Seq::<Seq<char>>::empty());
    while i < names.len()
        invariant
            i <= names.len(),
            fields@ == fields_of_names(views(names@).subrange(0, i as int)),
        decreases names.len() - i,
    {
        proof {
            let next = views(names@).subrange(0, i + 1);
            assert(next.drop_last() =~= views(names@).subrange(0, i as int));
            assert(next.last() == names@[i as int]@);
        }
        match StreamingFields::from_str(names[i].as_str()) {
            Ok(f) => {
                fields.push(f);
            },
            Err(_) => {},
        }
        i = i + 1;
    }
    assert(views(names@).subrange(0, names.len() as int) =~= views(names@));
    fields
}

/// The comma-separated names of a field list.
pub fn serialize_field_names(fields: &Vec<StreamingFields>) -> (out: String)
    ensures
        out@ == join(Seq::new(fields@.len(), |i: int| field_name(fields@[i])), ','),
{
    let mut names: Vec<String> = Vec::new();
    let mut i: usize = 0;
    while i < fields.len()
        invariant
            i <= fields.len(),
            views(names@) == Seq::new(i as nat, |k: int| field_name(fields@[k])),
        decreases fields.len() - i,
    {
        let name: String = fields[i].to_string();
        let ghost before = names@;
        names.push(name);
        i = i + 1;
        assert(views(names@) =~= views(before).push(name@));
        assert(views(names@) =~= Seq::new(i as nat, |k: int| field_name(fields@[k])));
    }
    proof {
        reveal_strlit(",");
    }
    join_with(&names, ",")
}

// ---------------------------------------------------------------------------
// Writing a line
// ---------------------------------------------------------------------------
/// The text of a value that is not a whole number: empty when the value is
/// unknown.
pub open spec fn decimal_value_text(v: Option<Decimal>) -> Seq<char> {
    match v {
        Some(d) => decimal_text(d.micros as int),
        None => Seq::empty(),
    }
}

/// The value of field `f` of a sample as it stands in a line: empty when
/// the value is unknown.
pub open spec fn field_text(d: StreamingDataView, f: StreamingFields) -> Seq<char> {
    match f {
        StreamingFields::Speed => decimal_value_text(d.speed),
        StreamingFields::Odometer => decimal_value_text(d.odometer),
        StreamingFields::Soc => match d.soc {
            Some(v) => int_text(v as int),
            None => Seq::empty(),
        },
        StreamingFields::Elevation => match d.elevation {
            Some(v) => int_text(v as int),
            None => Seq::empty(),
        },
        StreamingFields::EstHeading => match d.est_heading {
            Some(v) => int_text(v as int),
            None => Seq::empty(),
        },
        StreamingFields::EstLat => decimal_value_text(d.est_lat),
        StreamingFields::EstLng => decimal_value_text(d.est_lng),
        StreamingFields::Power => match d.power {
            Some(v) => int_text(v as int),
            None => Seq::empty(),
        },
        StreamingFields::ShiftState => match d.shift_state {
            Some(s) => shift_text(s),
            None => Seq::empty(),
        },
        StreamingFields::Range => decimal_value_text(d.range),
        StreamingFields::EstRange => decimal_value_text(d.est_range),
        StreamingFields::Heading => match d.heading {
            Some(v) => int_text(v as int),
            None => Seq::empty(),
        },
    }
}

/// The pieces of the line of a sample: the time, then one value per field.
pub open spec fn line_pieces(fields: Seq<StreamingFields>, d: StreamingDataView) -> Seq<Seq<char>> {
    seq![int_text(d.time as int)] + Seq::new(fields.len(), |i: int| field_text(d, fields[i]))
}

/// The line of a sample for a field list.
pub open spec fn encode_line(fields: Seq<StreamingFields>, d: StreamingDataView) -> Seq<char> {
    join(line_pieces(fields, d), ',')
}

/// Appends the text of a value, or an empty text for an unknown value.
pub fn push_data(result: &mut Vec<String>, data: Option<String>)
    ensures
        final(result)@.len() == old(result)@.len() + 1,
        views(final(result)@) == views(old(result)@).push(
            match data {
                Some(s) => s@,
                None => Seq::empty(),
            },
        ),
{
    let piece: String = match data {
        Some(s) => s,
        None => String::new(),
    };
    let ghost before = result@;
    result.push(piece);
    assert(views(result@) =~= views(before).push(piece@));
}

fn decimal_piece(v: Option<Decimal>) -> (r: Option<String>)
    ensures
        r is Some == v is Some,
        (match r {
            Some(s) => s@,
            None => Seq::empty(),
        }) == decimal_value_text(v),
{
    match v {
        Some(d) => Some(d.to_string()),
        None => None,
    }
}

fn text_of_field(data: &StreamingData, field: StreamingFields) -> (r: Option<String>)
    ensures
        (match r {
            Some(s) => s@,
            None => Seq::empty(),
        }) == field_text(data@, field),
{
    match field {
        StreamingFields::Speed => decimal_piece(data.speed),
        StreamingFields::Odometer => decimal_piece(data.odometer),
        StreamingFields::Soc => match data.soc {
            Some(v) => Some(render_int(v as i128)),
            None => None,
        },
        StreamingFields::Elevation => match data.elevation {
            Some(v) => Some(render_int(v as i128)),
            None => None,
        },
        StreamingFields::EstHeading => match data.est_heading {
            Some(v) => Some(render_int(v as i128)),
            None => None,
        },
        StreamingFields::EstLat => decimal_piece(data.est_lat),
        StreamingFields::EstLng => decimal_piece(data.est_lng),
        StreamingFields::Power => match data.power {
            Some(v) => Some(render_int(v as i128)),
            None => None,
        },
        StreamingFields::ShiftState => match &data.shift_state {
            Some(s) => Some(s.to_string()),
            None => None,
        },
        StreamingFields::Range => decimal_piece(data.range),
        StreamingFields::EstRange => decimal_piece(data.est_range),
        StreamingFields::Heading => match data.heading {
            Some(v) => Some(render_int(v as i128)),
            None => None,
        },
    }
}

/// Writes a sample as a line for the given field list.
pub fn serialize_fields(fields: &Vec<StreamingFields>, data: &StreamingData) -> (line: String)
    ensures
        line@ == encode_line(fields@, data@),
{
    let mut result: Vec<String> = Vec::new();
    push_data(&mut result, Some(render_int(data.time as i128)));
    let mut i: usize = 0;
    assert(views(result@) =~= line_pieces(fields@.subrange(0, 0), data@));
    while i < fields.len()
        invariant
            i <= fields.len(),
            views(result@) == line_pieces(fields@.subrange(0, i as int), data@),
        decreases fields.len() - i,
    {
        let piece: Option<String> = text_of_field(data, fields[i]);
        push_data(&mut result, piece);
        i = i + 1;
        assert(views(result@) =~= line_pieces(fields@.subrange(0, i as int), data@));
    }
    assert(fields@.subrange(0, fields.len() as int) =~= fields@);
    proof {
        reveal_strlit(",");
    }
    join_with(&result, ",")
}

// ---------------------------------------------------------------------------
// Reading a line
// ---------------------------------------------------------------------------
/// The value that a text denotes for a field that is not a whole number:
/// unknown for an empty text, `None` for a text that denotes no number.
pub open spec fn decimal_of_text(value: Seq<char>) -> Option<Option<Decimal>> {
    if value.len() == 0 {
        Some(None)
    } else {
        match parse_decimal(value) {
            Some(m) => Some(Some(Decimal { micros: m as i64 })),
            None => None,
        }
    }
}

/// The value that a text denotes for a field of whole numbers from `lo` to
/// `hi`: unknown for an empty text, `None` for a text that denotes no such
/// number.
pub open spec fn int_of_text(value: Seq<char>, lo: int, hi: int) -> Option<Option<int>> {
    if value.len() == 0 {
        Some(None)
    } else {
        match parse_int(value, lo, hi) {
            Some(v) => Some(Some(v)),
            None => None,
        }
    }
}

/// The sample `d` with field `f` set from the text `value`: unknown for an
/// empty text, else the value that the text denotes for that field. `None`
/// when the text denotes no value of the field.
pub open spec fn with_field(d: StreamingDataView, f: StreamingFields, value: Seq<char>) -> Option<
    StreamingDataView,
> {
    match f {
        StreamingFields::Speed => match decimal_of_text(value) {
            Some(v) => Some(StreamingDataView { speed: v, ..d }),
            None => None,
        },
        StreamingFields::Odometer => match decimal_of_text(value) {
            Some(v) => Some(StreamingDataView { odometer: v, ..d }),
            None => None,
        },
        StreamingFields::Soc => match int_of_text(value, 0, u8::MAX as int) {
            Some(Some(v)) => Some(StreamingDataView { soc: Some(v as u8), ..d }),
            Some(None) => Some(StreamingDataView { soc: None, ..d }),
            None => None,
        },
        StreamingFields::Elevation => match int_of_text(value, 0, u32::MAX as int) {
            Some(Some(v)) => Some(StreamingDataView { elevation: Some(v as u32), ..d }),
            Some(None) => Some(StreamingDataView { elevation: None, ..d }),
            None => None,
        },
        StreamingFields::EstHeading => match int_of_text(value, 0, u16::MAX as int) {
            Some(Some(v)) => Some(StreamingDataView { est_heading: Some(v as u16), ..d }),
            Some(None) => Some(StreamingDataView { est_heading: None, ..d }),
            None => None,
        },
        StreamingFields::EstLat => match decimal_of_text(value) {
            Some(v) => Some(StreamingDataView { est_lat: v, ..d }),
            None => None,
        },
        StreamingFields::EstLng => match decimal_of_text(value) {
            Some(v) => Some(StreamingDataView { est_lng: v, ..d }),
            None => None,
        },
        StreamingFields::Power => match int_of_text(value, i32::MIN as int, i32::MAX as int) {
            Some(Some(v)) => Some(StreamingDataView { power: Some(v as i32), ..d }),
            Some(None) => Some(StreamingDataView { power: None, ..d }),
            None => None,
        },
        StreamingFields::ShiftState => if value.len() == 0 {
            Some(StreamingDataView { shift_state: None, ..d })
        } else {
            Some(StreamingDataView { shift_state: Some(shift_of_text(value)), ..d })
        },
        StreamingFields::Range => match decimal_of_text(value) {
            Some(v) => Some(StreamingDataView { range: v, ..d }),
            None => None,
        },
        StreamingFields::EstRange => match decimal_of_text(value) {
            Some(v) => Some(StreamingDataView { est_range: v, ..d }),
            None => None,
        },
        StreamingFields::Heading => match int_of_text(value, 0, u16::MAX as int) {
            Some(Some(v)) => Some(StreamingDataView { heading: Some(v as u16), ..d }),
            Some(None) => Some(StreamingDataView { heading: None, ..d }),
            None => None,
        },
    }
}

/// Reads the values of a line from the `n`-th on into `d`. `pieces` holds
/// the time first, so value `n` is piece `n + 1`. The first value that has
/// no field, or does not fit its field, ends the reading with its error.
pub open spec fn decode_values(
    d: StreamingDataView,
    pieces: Seq<Seq<char>>,
    fields: Seq<StreamingFields>,
    n: nat,
) -> Result<StreamingDataView, StreamingFieldErrorView>
    decreases pieces.len() - n,
{
    if n + 1 >= pieces.len() {
        Ok(d)
    } else if n >= fields.len() {
        Err(StreamingFieldErrorView::FieldMissingError(n as usize))
    } else {
        match with_field(d, fields[n as int], pieces[n as int + 1]) {
            Some(next) => decode_values(next, pieces, fields, n + 1),
            None => Err(
                StreamingFieldErrorView::FieldError(
                    fields[n as int],
                    n as usize,
                    pieces[n as int + 1],
                ),
            ),
        }
    }
}

/// The sample that a line denotes for a field list, or why it denotes none.
pub open spec fn decode_line(
    id: VehicleGuid,
    line: Seq<char>,
    fields: Seq<StreamingFields>,
) -> Result<
    StreamingDataView,
    StreamingFieldErrorView,
> {
    let pieces = split(line, ',');
    match parse_int(pieces[0], i64::MIN as int, i64::MAX as int) {
        Some(time) => decode_values(blank_sample(id, time as i64), pieces, fields, 0),
        None => Err(StreamingFieldErrorView::InvalidTime(pieces[0])),
    }
}

fn read_decimal(value: &str) -> (r: Option<Option<Decimal>>)
    ensures
        r == decimal_of_text(value@),
{
    if value.unicode_len() == 0 {
        Some(None)
    } else {
        match Decimal::from_str(value) {
            Some(d) => Some(Some(d)),
            None => None,
        }
    }
}

fn read_int(value: &str, lo: i128, hi: i128) -> (r: Option<Option<i128>>)
    requires
        -0x1_0000_0000 <= lo <= 0,
        0 <= hi <= 0x1_0000_0000,
    ensures
        match int_of_text(value@, lo as int, hi as int) {
            Some(Some(v)) => r == Some(Some(v as i128)),
            Some(None) => r == Some(None::<i128>),
            None => r is None,
        },
{
    if value.unicode_len() == 0 {
        Some(None)
    } else {
        match parse_integer(value, lo, hi) {
            Some(v) => Some(Some(v)),
            None => None,
        }
    }
}

/// Sets field `field` of `data` from the text `value`, which stood at index
/// `n` of a line. An empty text makes the field unknown. A text that does
/// not fit the field leaves `data` as it was and is reported with the field,
/// the index and the text.
pub fn parse_field(data: &mut StreamingData, value: &str, field: &StreamingFields, n: usize) -> (r:
    Result<(), StreamingFieldError>)
    ensures
        match with_field(old(data)@, *field, value@) {
            Some(next) => r is Ok && final(data)@ == next,
            None => r is Err && r->Err_0@ == StreamingFieldErrorView::FieldError(*field, n, value@)
                && *final(data) == *old(data),
        },
{
    let mut failed: bool = false;
    match field {
        StreamingFields::Speed => match read_decimal(value) {
            Some(v) => {
                data.speed = v;
            },
            None => {
                failed = true;
            },
        },
        StreamingFields::Odometer => match read_decimal(value) {
            Some(v) => {
                data.odometer = v;
            },
            None => {
                failed = true;
            },
        },
        StreamingFields::Soc => match read_int(value, 0, 255) {
            Some(Some(v)) => {
                data.soc = Some(v as u8);
            },
            Some(None) => {
                data.soc = None;
            },
            None => {
                failed = true;
            },
        },
        StreamingFields::Elevation => match read_int(value, 0, 0xffff_ffff) {
            Some(Some(v)) => {
                data.elevation = Some(v as u32);
            },
            Some(None) => {
                data.elevation = None;
            },
            None => {
                failed = true;
            },
        },
        StreamingFields::EstHeading => match read_int(value, 0, 0xffff) {
            Some(Some(v)) => {
                data.est_heading = Some(v as u16);
            },
            Some(None) => {
                data.est_heading = None;
            },
            None => {
                failed = true;
            },
        },
        StreamingFields::EstLat => match read_decimal(value) {
            Some(v) => {
                data.est_lat = v;
            },
            None => {
                failed = true;
            },
        },
        StreamingFields::EstLng => match read_decimal(value) {
            Some(v) => {
                data.est_lng = v;
            },
            None => {
                failed = true;
            },
        },
        StreamingFields::Power => match read_int(value, -0x8000_0000, 0x7fff_ffff) {
            Some(Some(v)) => {
                data.power = Some(v as i32);
            },
            Some(None) => {
                data.power = None;
            },
            None => {
                failed = true;
            },
        },
        StreamingFields::ShiftState => {
            if value.unicode_len() == 0 {
                data.shift_state = None;
            } else {
                data.shift_state = Some(ShiftState::from_str(value).unwrap());
            }
        },
        StreamingFields::Range => match read_decimal(value) {
            Some(v) => {
                data.range = v;
            },
            None => {
                failed = true;
            },
        },
        StreamingFields::EstRange => match read_decimal(value) {
            Some(v) => {
                data.est_range = v;
            },
            None => {
                failed = true;
            },
        },
        StreamingFields::Heading => match read_int(value, 0, 0xffff) {
            Some(Some(v)) => {
                data.heading = Some(v as u16);
            },
            Some(None) => {
                data.heading = None;
            },
            None => {
                failed = true;
            },
        },
    }
    if failed {
        Err(StreamingFieldError::FieldError(*field, n, value.to_owned()))
    } else {
        Ok(())
    }
}

/// Reads a line as a sample of vehicle `id` for the given field list.
pub fn deserialize_fields(id: VehicleGuid, str: &str, fields: &Vec<StreamingFields>) -> (r: Result<
    StreamingData,
    StreamingFieldError,
>)
    ensures
        match decode_line(id, str@, fields@) {
            Ok(d) => r is Ok && r->Ok_0@ == d,
            Err(e) => r is Err && r->Err_0@ == e,
        },
{
    let pieces: Vec<String> = split_on(str, ',');
    proof {
        crate::text::lemma_split_pieces(str@, ',');
    }
    let time: i64 = match parse_integer(
        pieces[0].as_str(),
        -0x8000_0000_0000_0000,
        0x7fff_ffff_ffff_ffff,
    ) {
        Some(t) => t as i64,
        None => {
            return Err(StreamingFieldError::InvalidTime(pieces[0].clone()));
        },
    };
    let mut data: StreamingData = StreamingData::new(id, time);
    let mut n: usize = 0;
    let ghost goal = decode_line(id, str@, fields@);
    while n + 1 < pieces.len()
        invariant
            n < pieces.len(),
            views(pieces@) == split(str@, ','),
            goal == decode_line(id, str@, fields@),
            decode_values(data@, views(pieces@), fields@, n as nat) == goal,
        decreases pieces.len() - n,
    {
        if n >= fields.len() {
            return Err(StreamingFieldError::FieldMissingError(n));
        }
        let field: StreamingFields = fields[n];
        match parse_field(&mut data, pieces[n + 1].as_str(), &field, n) {
            Ok(()) => {},
            Err(e) => {
                return Err(e);
            },
        }
        n = n + 1;
    }
    Ok(data)
}

} // verus!
