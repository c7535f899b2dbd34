//! The envelope around every answer of the owner interface: `{response: T}`
//! for a success, `{error, error_description, messages: {}}` for a failure.

use crate::types::VehicleDefinition;
use crate::vehicle_data::VehicleData;
use std::collections::HashMap;
use vstd::prelude::*;

verus! {

/// The failure envelope.
#[derive(Debug, PartialEq, Eq)]
pub struct TeslaError {
    /// A short code, such as `error:invalid_command`.
    pub error: String,
    /// The failure in words.
    pub error_description: String,
    /// Further messages by name. This library never adds any.
    pub messages: HashMap<String, String>,
}

/// The success envelope.
#[derive(Debug, PartialEq, Eq)]
pub struct TeslaResponseSuccess<T> {
    pub response: T,
}

/// Either envelope.
#[derive(Debug, PartialEq, Eq)]
pub enum TeslaResponse<T> {
    Success { response: T },
    Error(TeslaError),
}

impl<T> TeslaResponse<T> {
    /// The success envelope around `response`.
    pub fn success(response: T) -> (r: Self)
        ensures
            r == (TeslaResponse::Success { response }),
    {
        TeslaResponse::Success { response }
    }

    /// The failure envelope with the given code and description and no
    /// further messages.
    pub fn error(error: &str, description: &str) -> (r: Self)
        ensures
            r matches TeslaResponse::Error(e) && e.error@ == error@ && e.error_description@
                == description@ && e.messages@ == Map::<String, String>::empty(),
    {
        TeslaResponse::Error(
            TeslaError {
                error: error.to_owned(),
                error_description: description.to_owned(),
                messages: HashMap::new(),
            },
        )
    }

    /// What a success carries, `None` for a failure.
    pub fn get_response(self) -> (r: Option<T>)
        ensures
            r == match self {
                TeslaResponse::Success { response } => Some(response),
                TeslaResponse::Error(_) => None,
            },
    {
        match self {
            TeslaResponse::Success { response } => Some(response),
            TeslaResponse::Error(_) => None,
        }
    }

    /// The failure, `None` for a success.
    pub fn get_error(&self) -> (r: Option<&TeslaError>)
        ensures
            r == match *self {
                TeslaResponse::Success { .. } => None::<&TeslaError>,
                TeslaResponse::Error(e) => Some(&e),
            },
    {
        match self {
            TeslaResponse::Success { .. } => None,
            TeslaResponse::Error(error) => Some(error),
        }
    }
}

/// The failure envelope with the given code and description, for an answer
/// that carries nothing on success.
pub fn error(code: &str, description: &str) -> (r: TeslaResponse<()>)
    ensures
        r matches TeslaResponse::Error(e) && e.error@ == code@ && e.error_description@
            == description@ && e.messages@ == Map::<String, String>::empty(),
{
    TeslaResponse::error(code, description)
}

/// The answer to a request for the fleet.
pub type VehiclesResponse = TeslaResponse<Vec<VehicleDefinition>>;

/// The answer to a request for one vehicle.
pub type VehicleResponse = TeslaResponse<VehicleDefinition>;

/// The answer to a request for the data of a vehicle.
pub type VehicleDataResponse = TeslaResponse<VehicleData>;

} // verus!
