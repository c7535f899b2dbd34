//! Identifiers and small enumerations shared by every interface.

use crate::number::{int_text, parse_int, parse_integer, render_int};
use crate::simulator::SimulationStateEnum;
use crate::text::{clone_text, clone_texts, opt_text, str_eq, views};
use std::convert::Infallible;
use vstd::prelude::*;

verus! {

/// Seconds or milliseconds since the Unix epoch, as the context says.
pub type Timestamp = i64;

/// A text that is not the decimal form of a 64-bit identifier.
#[derive(Debug, Clone, Copy, PartialEq, Eq, Structural)]
pub struct ParseIdError;

/// The number that an identifier text denotes: an optional `+` and at least
/// one numeral, with a value below 2^64.
pub open spec fn parse_id(s: Seq<char>) -> Option<u64> {
    match parse_int(s, 0, u64::MAX as int) {
        Some(v) => Some(v as u64),
        None => None,
    }
}

/// The decimal form of an identifier denotes the identifier.
pub proof fn lemma_id_roundtrip(id: u64)
    ensures
        parse_id(int_text(id as int)) == Some(id),
{
    crate::number::lemma_parse_int_text(id as int, 0, u64::MAX as int);
}

fn parse_id_text(s: &str) -> (r: Option<u64>)
    ensures
        r == parse_id(s@),
{
    match parse_integer(s, 0, 0xffff_ffff_ffff_ffff) {
        Some(v) => Some(v as u64),
        None => None,
    }
}

/// Identifier of a vehicle on the owner interface.
#[derive(Debug, Clone, Copy, PartialEq, Eq, Hash, Structural)]
pub struct VehicleId(pub u64);

impl VehicleId {
    /// The identifier with the given number.
    pub fn new(id: u64) -> (r: Self)
        ensures
            r == VehicleId(id),
    {
        VehicleId(id)
    }

    /// Reads the decimal form.
    pub fn from_str(s: &str) -> (r: Result<Self, ParseIdError>)
        ensures
            r == match parse_id(s@) {
                Some(v) => Ok::<VehicleId, ParseIdError>(VehicleId(v)),
                None => Err(ParseIdError),
            },
    {
        match parse_id_text(s) {
            Some(v) => Ok(VehicleId(v)),
            None => Err(ParseIdError),
        }
    }

    /// The decimal form.
    pub fn to_string(&self) -> (r: String)
        ensures
            r@ == int_text(self.0 as int),
    {
        render_int(self.0 as i128)
    }
}

/// Identifier of a vehicle on the streaming interface. It shares nothing
/// with `VehicleId` but the shape.
#[derive(Debug, Clone, Copy, PartialEq, Eq, Hash, Structural)]
pub struct VehicleGuid(pub u64);

impl VehicleGuid {
    /// The identifier with the given number.
    pub fn new(id: u64) -> (r: Self)
        ensures
            r == VehicleGuid(id),
    {
        VehicleGuid(id)
    }

    /// Reads the decimal form.
    pub fn from_str(s: &str) -> (r: Result<Self, ParseIdError>)
        ensures
            r == match parse_id(s@) {
                Some(v) => Ok::<VehicleGuid, ParseIdError>(VehicleGuid(v)),
                None => Err(ParseIdError),
            },
    {
        match parse_id_text(s) {
            Some(v) => Ok(VehicleGuid(v)),
            None => Err(ParseIdError),
        }
    }

    /// The decimal form.
    pub fn to_string(&self) -> (r: String)
        ensures
            r@ == int_text(self.0 as int),
    {
        render_int(self.0 as i128)
    }
}

/// What the outside world sees of a vehicle's state.
#[derive(Debug, PartialEq, Eq)]
pub enum VehicleStateEnum {
    Offline,
    Online,
    /// A state this library has no name for, kept as received.
    Unknown(String),
}

/// An outward state with the text of an unknown one as a character
/// sequence.
pub enum VehicleStateView {
    Offline,
    Online,
    Unknown(Seq<char>),
}

impl View for VehicleStateEnum {
    type V = VehicleStateView;

    open spec fn view(&self) -> VehicleStateView {
        match *self {
            VehicleStateEnum::Offline => VehicleStateView::Offline,
            VehicleStateEnum::Online => VehicleStateView::Online,
            VehicleStateEnum::Unknown(s) => VehicleStateView::Unknown(s@),
        }
    }
}

impl Clone for VehicleStateEnum {
    fn clone(&self) -> (r: Self)
        ensures
            r@ == self@,
    {
        match self {
            VehicleStateEnum::Offline => VehicleStateEnum::Offline,
            VehicleStateEnum::Online => VehicleStateEnum::Online,
            VehicleStateEnum::Unknown(s) => VehicleStateEnum::Unknown(s.as_str().to_owned()),
        }
    }
}

/// The outward state of a simulator state: asleep is offline, anything else
/// is online.
pub open spec fn online_state(state: SimulationStateEnum) -> VehicleStateEnum {
    match state {
        SimulationStateEnum::Sleeping => VehicleStateEnum::Offline,
        _ => VehicleStateEnum::Online,
    }
}

impl VehicleStateEnum {
    /// The outward state of a simulator state.
    pub fn from(state: SimulationStateEnum) -> (r: Self)
        ensures
            r == online_state(state),
    {
        match state {
            SimulationStateEnum::Driving => VehicleStateEnum::Online,
            SimulationStateEnum::Charging => VehicleStateEnum::Online,
            SimulationStateEnum::Idle => VehicleStateEnum::Online,
            SimulationStateEnum::IdleNoSleep => VehicleStateEnum::Online,
            SimulationStateEnum::Sleeping => VehicleStateEnum::Offline,
        }
    }

    /// Whether two states are the same, unknown ones by their text.
    pub fn same_as(&self, other: &VehicleStateEnum) -> (r: bool)
        ensures
            r == (self@ == other@),
    {
        match (self, other) {
            (VehicleStateEnum::Offline, VehicleStateEnum::Offline) => true,
            (VehicleStateEnum::Online, VehicleStateEnum::Online) => true,
            (VehicleStateEnum::Unknown(a), VehicleStateEnum::Unknown(b)) => str_eq(
                a.as_str(),
                b.as_str(),
            ),
            _ => false,
        }
    }
}

/// The public record of a vehicle.
#[derive(Debug, PartialEq, Eq)]
pub struct VehicleDefinition {
    /// Identifier on the owner interface.
    pub id: VehicleId,
    /// Identifier on the streaming interface.
    pub vehicle_id: VehicleGuid,
    /// Vehicle identification number.
    pub vin: String,
    pub display_name: String,
    pub option_codes: Option<String>,
    pub color: Option<String>,
    pub tokens: Vec<String>,
    pub state: VehicleStateEnum,
    pub in_service: bool,
    /// The owner identifier as text.
    pub id_s: String,
    pub calendar_enabled: bool,
    pub api_version: u8,
    pub backseat_token: Option<String>,
    pub backseat_token_updated_at: Option<String>,
}

impl VehicleDefinition {
    /// Whether `other` holds the same record, texts compared by their
    /// characters.
    pub open spec fn same_as(&self, other: &VehicleDefinition) -> bool {
        &&& self.id == other.id
        &&& self.vehicle_id == other.vehicle_id
        &&& self.vin@ == other.vin@
        &&& self.display_name@ == other.display_name@
        &&& opt_text(self.option_codes) == opt_text(other.option_codes)
        &&& opt_text(self.color) == opt_text(other.color)
        &&& views(self.tokens@) == views(other.tokens@)
        &&& self.state@ == other.state@
        &&& self.in_service == other.in_service
        &&& self.id_s@ == other.id_s@
        &&& self.calendar_enabled == other.calendar_enabled
        &&& self.api_version == other.api_version
        &&& opt_text(self.backseat_token) == opt_text(other.backseat_token)
        &&& opt_text(self.backseat_token_updated_at) == opt_text(other.backseat_token_updated_at)
    }
}

impl Clone for VehicleDefinition {
    fn clone(&self) -> (r: Self)
        ensures
            r.same_as(self),
    {
        VehicleDefinition {
            id: self.id,
            vehicle_id: self.vehicle_id,
            vin: self.vin.as_str().to_owned(),
            display_name: self.display_name.as_str().to_owned(),
            option_codes: clone_text(&self.option_codes),
            color: clone_text(&self.color),
            tokens: clone_texts(&self.tokens),
            state: self.state.clone(),
            in_service: self.in_service,
            id_s: self.id_s.as_str().to_owned(),
            calendar_enabled: self.calendar_enabled,
            api_version: self.api_version,
            backseat_token: clone_text(&self.backseat_token),
            backseat_token_updated_at: clone_text(&self.backseat_token_updated_at),
        }
    }
}

/// The gear a vehicle is in.
#[derive(Debug, PartialEq, Eq)]
pub enum ShiftState {
    Park,
    Drive,
    Reverse,
    /// A gear this library has no name for, kept as received.
    Unknown(String),
}

/// A gear with the text of an unknown one as a character sequence.
pub enum ShiftStateView {
    Park,
    Drive,
    Reverse,
    Unknown(Seq<char>),
}

impl View for ShiftState {
    type V = ShiftStateView;

    open spec fn view(&self) -> ShiftStateView {
        match *self {
            ShiftState::Park => ShiftStateView::Park,
            ShiftState::Drive => ShiftStateView::Drive,
            ShiftState::Reverse => ShiftStateView::Reverse,
            ShiftState::Unknown(s) => ShiftStateView::Unknown(s@),
        }
    }
}

/// The wire text of a gear: one letter for the known gears, the original
/// text for an unknown one.
pub open spec fn shift_text(s: ShiftStateView) -> Seq<char> {
    match s {
        ShiftStateView::Park => seq!['P'],
        ShiftStateView::Drive => seq!['D'],
        ShiftStateView::Reverse => seq!['R'],
        ShiftStateView::Unknown(t) => t,
    }
}

/// The gear that a wire text denotes. Every text denotes one.
pub open spec fn shift_of_text(t: Seq<char>) -> ShiftStateView {
    if t == seq!['P'] {
        ShiftStateView::Park
    } else if t == seq!['D'] {
        ShiftStateView::Drive
    } else if t == seq!['R'] {
        ShiftStateView::Reverse
    } else {
        ShiftStateView::Unknown(t)
    }
}

/// An unknown gear whose text is a known gear's letter reads back as that
/// gear; every other gear survives the wire.
pub open spec fn canonical_shift(s: ShiftStateView) -> bool {
    match s {
        ShiftStateView::Unknown(t) => t != seq!['P'] && t != seq!['D'] && t != seq!['R'],
        _ => true,
    }
}

/// Reading the wire text of a gear gives the gear back, unless it is an
/// unknown gear that hides a known letter.
pub proof fn lemma_shift_roundtrip(s: ShiftStateView)
    requires
        canonical_shift(s),
    ensures
        shift_of_text(shift_text(s)) == s,
{
    assert(seq!['P'][0] == 'P');
    assert(seq!['D'][0] == 'D');
    assert(seq!['R'][0] == 'R');
}

/// The view of an optional gear.
pub open spec fn opt_shift(o: Option<ShiftState>) -> Option<ShiftStateView> {
    match o {
        Some(s) => Some(s@),
        None => None,
    }
}

impl Clone for ShiftState {
    fn clone(&self) -> (r: Self)
        ensures
            r@ == self@,
    {
        match self {
            ShiftState::Park => ShiftState::Park,
            ShiftState::Drive => ShiftState::Drive,
            ShiftState::Reverse => ShiftState::Reverse,
            ShiftState::Unknown(s) => ShiftState::Unknown(s.as_str().to_owned()),
        }
    }
}

impl ShiftState {
    /// Reads the wire text. Never fails: a text that is no known letter is
    /// kept as an unknown gear.
    pub fn from_str(s: &str) -> (r: Result<Self, Infallible>)
        ensures
            r matches Ok(gear) && gear@ == shift_of_text(s@),
    {
        proof {
            reveal_strlit("P");
            reveal_strlit("D");
            reveal_strlit("R");
            assert("P"@ =~= seq!['P']);
            assert("D"@ =~= seq!['D']);
            assert("R"@ =~= seq!['R']);
        }
        if str_eq(s, "P") {
            Ok(ShiftState::Park)
        } else if str_eq(s, "D") {
            Ok(ShiftState::Drive)
        } else if str_eq(s, "R") {
            Ok(ShiftState::Reverse)
        } else {
            Ok(ShiftState::Unknown(s.to_owned()))
        }
    }

    /// The wire text.
    pub fn to_string(&self) -> (r: String)
        ensures
            r@ == shift_text(self@),
    {
        proof {
            reveal_strlit("P");
            reveal_strlit("D");
            reveal_strlit("R");
            assert("P"@ =~= seq!['P']);
            assert("D"@ =~= seq!['D']);
            assert("R"@ =~= seq!['R']);
        }
        match self {
            ShiftState::Park => "P".to_owned(),
            ShiftState::Drive => "D".to_owned(),
            ShiftState::Reverse => "R".to_owned(),
            ShiftState::Unknown(s) => s.as_str().to_owned(),
        }
    }
}

/// Whether the battery is being charged, and if not, why.
#[derive(Debug, PartialEq, Eq)]
pub enum ChargingStateEnum {
    Starting,
    Complete,
    Charging,
    /// No cable is attached.
    Disconnected,
    Stopped,
    /// A cable is attached and delivers no power.
    NoPower,
    /// A state this library has no name for, kept as received.
    Unknown(String),
}

/// A charging state with the text of an unknown one as a character
/// sequence.
pub enum ChargingStateView {
    Starting,
    Complete,
    Charging,
    Disconnected,
    Stopped,
    NoPower,
    Unknown(Seq<char>),
}

impl View for ChargingStateEnum {
    type V = ChargingStateView;

    open spec fn view(&self) -> ChargingStateView {
        match *self {
            ChargingStateEnum::Starting => ChargingStateView::Starting,
            ChargingStateEnum::Complete => ChargingStateView::Complete,
            ChargingStateEnum::Charging => ChargingStateView::Charging,
            ChargingStateEnum::Disconnected => ChargingStateView::Disconnected,
            ChargingStateEnum::Stopped => ChargingStateView::Stopped,
            ChargingStateEnum::NoPower => ChargingStateView::NoPower,
            ChargingStateEnum::Unknown(s) => ChargingStateView::Unknown(s@),
        }
    }
}

impl Clone for ChargingStateEnum {
    fn clone(&self) -> (r: Self)
        ensures
            r@ == self@,
    {
        match self {
            ChargingStateEnum::Starting => ChargingStateEnum::Starting,
            ChargingStateEnum::Complete => ChargingStateEnum::Complete,
            ChargingStateEnum::Charging => ChargingStateEnum::Charging,
            ChargingStateEnum::Disconnected => ChargingStateEnum::Disconnected,
            ChargingStateEnum::Stopped => ChargingStateEnum::Stopped,
            ChargingStateEnum::NoPower => ChargingStateEnum::NoPower,
            ChargingStateEnum::Unknown(s) => ChargingStateEnum::Unknown(s.as_str().to_owned()),
        }
    }
}

} // verus!
