//! The per-vehicle simulator: the states a vehicle can be in and how it moves
//! between them as time passes and commands arrive.

pub mod actor;
pub mod factory;
pub mod server;
pub mod types;

use crate::errors::{ResponseError, ResponseErrorView};
use crate::number::int_text;
use crate::streaming::{DataError, ErrorType};
use crate::text::str_eq;
use crate::types::VehicleGuid;
use vstd::prelude::*;
use vstd::string::*;

verus! {

/// The kind of state a simulated vehicle is in, without its timers.
#[derive(Debug, Clone, Copy, PartialEq, Eq, Structural)]
pub enum SimulationStateEnum {
    Driving,
    Charging,
    Idle,
    /// Idle, and never falling asleep.
    IdleNoSleep,
    Sleeping,
}

/// The name of a state in requests: lower case with underscores.
pub open spec fn state_name(state: SimulationStateEnum) -> Seq<char> {
    match state {
        SimulationStateEnum::Driving => "driving"@,
        SimulationStateEnum::Charging => "charging"@,
        SimulationStateEnum::Idle => "idle"@,
        SimulationStateEnum::IdleNoSleep => "idle_no_sleep"@,
        SimulationStateEnum::Sleeping => "sleeping"@,
    }
}

/// The state that a name denotes, if any.
pub open spec fn state_of_name(name: Seq<char>) -> Option<SimulationStateEnum> {
    if name == "driving"@ {
        Some(SimulationStateEnum::Driving)
    } else if name == "charging"@ {
        Some(SimulationStateEnum::Charging)
    } else if name == "idle"@ {
        Some(SimulationStateEnum::Idle)
    } else if name == "idle_no_sleep"@ {
        Some(SimulationStateEnum::IdleNoSleep)
    } else if name == "sleeping"@ {
        Some(SimulationStateEnum::Sleeping)
    } else {
        None
    }
}

/// Every state is found again by its name.
pub proof fn lemma_state_name_roundtrip(state: SimulationStateEnum)
    ensures
        state_of_name(state_name(state)) == Some(state),
{
    reveal_strlit("driving");
    reveal_strlit("charging");
    reveal_strlit("idle");
    reveal_strlit("idle_no_sleep");
    reveal_strlit("sleeping");
    assert("driving"@[0] == 'd');
    assert("charging"@[0] == 'c');
    assert("idle"@.len() == 4);
    assert("idle_no_sleep"@.len() == 13);
    assert("sleeping"@[0] == 's');
}

/// Milliseconds that a caller waits for the reply of a simulator.
pub const TIMEOUT: u64 = 10_000;

/// How asking a simulator went.
#[derive(Debug, PartialEq, Eq)]
pub enum Exchange<T> {
    /// The simulator takes no commands any more.
    Refused,
    /// No reply came in time.
    TimedOut,
    /// The simulator has let go of the command without a reply.
    Dropped,
    /// The simulator has replied.
    Replied(T),
}

/// What the caller of a simulator gets: the reply if there is one, and
/// otherwise the news that the vehicle is not available.
pub fn settle<T>(exchange: Exchange<Result<T, ResponseError>>) -> (r: Result<T, ResponseError>)
    ensures
        match exchange {
            Exchange::Replied(reply) => r == reply,
            _ => r matches Err(e) && e@ == ResponseErrorView::DeviceNotAvailable,
        },
{
    match exchange {
        Exchange::Replied(reply) => reply,
        _ => Err(ResponseError::DeviceNotAvailable),
    }
}

/// What a subscriber to the vehicle `vehicle_id` gets: the reply if there
/// is one, and otherwise the news that the vehicle is disconnected.
pub fn settle_subscription<T>(
    exchange: Exchange<Result<T, DataError>>,
    vehicle_id: VehicleGuid,
) -> (r:
    Result<T, DataError>)
    ensures
        match exchange {
            Exchange::Replied(reply) => r == reply,
            _ => r matches Err(e) && e.tag@ == int_text(vehicle_id.0 as int) && e.error_type
                == ErrorType::VehicleDisconnected && e.value@ == "disconnected"@,
        },
{
    match exchange {
        Exchange::Replied(reply) => reply,
        _ => Err(DataError::disconnected(vehicle_id)),
    }
}

impl SimulationStateEnum {
    /// Reads the name of a state. An unknown name is an error whose text
    /// quotes it.
    pub fn from_str(s: &str) -> (r: Result<Self, String>)
        ensures
            match state_of_name(s@) {
                Some(state) => r == Ok::<SimulationStateEnum, String>(state),
                None => r is Err && r->Err_0@ == "Unknown simulation state: "@ + s@,
            },
    {
        if str_eq(s, "driving") {
            Ok(SimulationStateEnum::Driving)
        } else if str_eq(s, "charging") {
            Ok(SimulationStateEnum::Charging)
        } else if str_eq(s, "idle") {
            Ok(SimulationStateEnum::Idle)
        } else if str_eq(s, "idle_no_sleep") {
            Ok(SimulationStateEnum::IdleNoSleep)
        } else if str_eq(s, "sleeping") {
            Ok(SimulationStateEnum::Sleeping)
        } else {
            let mut message: String = "Unknown simulation state: ".to_owned();
            message.append(s);
            Err(message)
        }
    }

    /// The name of the state in requests.
    pub fn to_string(&self) -> (r: String)
        ensures
            r@ == state_name(*self),
    {
        match self {
            SimulationStateEnum::Driving => "driving".to_owned(),
            SimulationStateEnum::Charging => "charging".to_owned(),
            SimulationStateEnum::Idle => "idle".to_owned(),
            SimulationStateEnum::IdleNoSleep => "idle_no_sleep".to_owned(),
            SimulationStateEnum::Sleeping => "sleeping".to_owned(),
        }
    }
}

} // verus!
