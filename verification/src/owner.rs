//! The owner interface: what each request needs, whom it is about, and what
//! it is answered with.
//!
//! A request that needs the vehicle's simulator is decided in two halves.
//! The first half checks the caller and finds the vehicle; the caller of
//! this library then asks the simulator; the second half turns the
//! simulator's reply into the answer.

use crate::errors::{ResponseError, ResponseErrorView};
use crate::responses::{TeslaResponse, VehicleDataResponse, VehicleResponse, VehiclesResponse};
use crate::text::opt_text;
use crate::tokens::{access_held, validate_access_token, AccessClaims, Config, ScopeEnum};
use crate::types::{VehicleDefinition, VehicleId};
use crate::vehicle_data::{
    mask_of_query, mask_vehicle_data, masked, parse_endpoints, EndpointMask, VehicleData,
    VehicleDataQuery,
};
use crate::vehicles::{find_by_id, lemma_position_of_id, position_of_id, Vehicle};
use vstd::prelude::*;

verus! {

/// Checks the bearer token of a request. Whatever is wrong with a token, the
/// caller is told that it has expired. Claims that come back are the claims
/// of an access token that the token carries, so a token that carries none
/// is turned down whatever the time.
pub fn access_token(token: &str, config: &Config) -> (r: Result<AccessClaims, ResponseError>)
    ensures
        match r {
            Ok(claims) => access_held(config.secret@, token@) == Some(claims),
            Err(e) => e@ == ResponseErrorView::TokenExpired,
        },
        r matches Ok(claims) ==> claims.purpose == crate::tokens::Purpose::Access,
{
    match validate_access_token(token, config) {
        Ok(claims) => Ok(claims),
        Err(_) => Err(ResponseError::TokenExpired),
    }
}

/// The vehicle that a request of the holder of `claims` is about: the
/// position of the vehicle `id` in the fleet.
///
/// The scope is checked first, so a caller without it learns nothing about
/// which vehicles exist.
pub open spec fn target_of(
    vehicles: Seq<Vehicle>,
    claims: AccessClaims,
    scope: ScopeEnum,
    id: VehicleId,
) -> Result<
    int,
    ResponseErrorView,
> {
    if !claims.scopes.has(scope) {
        Err(ResponseErrorView::MissingScopes)
    } else {
        match position_of_id(vehicles, id) {
            Some(i) => Ok(i),
            None => Err(ResponseErrorView::NotFound),
        }
    }
}

/// Whether `r` names the vehicle that a request of the holder of `claims`
/// is about, or is the failure that the request meets with.
pub open spec fn is_target(
    r: Result<usize, ResponseError>,
    vehicles: Seq<Vehicle>,
    claims: AccessClaims,
    scope: ScopeEnum,
    id: VehicleId,
) -> bool {
    match target_of(vehicles, claims, scope, id) {
        Ok(i) => r matches Ok(found) && found == i && found < vehicles.len() && vehicles[i].id
            == id,
        Err(e) => r matches Err(error) && error@ == e,
    }
}

/// Checks that the caller holds `scope` and finds the vehicle `id`.
pub fn authorize(
    vehicles: &Vec<Vehicle>,
    claims: &AccessClaims,
    scope: ScopeEnum,
    id: VehicleId,
) -> (r:
    Result<usize, ResponseError>)
    ensures
        is_target(r, vehicles@, *claims, scope, id),
{
    if !claims.scopes.contains(scope) {
        return Err(ResponseError::MissingScopes);
    }
    proof {
        lemma_position_of_id(vehicles@, id);
    }
    match find_by_id(vehicles, id) {
        Some(i) => Ok(i),
        None => Err(ResponseError::NotFound),
    }
}

/// Whether `records` are the public records of the fleet, in order.
pub open spec fn records_of(records: Seq<VehicleDefinition>, vehicles: Seq<Vehicle>) -> bool {
    &&& records.len() == vehicles.len()
    &&& forall|i: int| 0 <= i < records.len() ==> (#[trigger] records[i]).same_as(&vehicles[i].data)
}

/// Answers `GET /api/1/vehicles`: the public records of all vehicles, for a
/// caller that may read vehicle data.
pub fn vehicles_handler(vehicles: &Vec<Vehicle>, claims: &AccessClaims) -> (r: Result<
    VehiclesResponse,
    ResponseError,
>)
    ensures
        if claims.scopes.has(ScopeEnum::VehicleDeviceData) {
            r matches Ok(TeslaResponse::Success { response }) && records_of(response@, vehicles@)
        } else {
            r matches Err(e) && e@ == ResponseErrorView::MissingScopes
        },
{
    if !claims.scopes.contains(ScopeEnum::VehicleDeviceData) {
        return Err(ResponseError::MissingScopes);
    }
    let mut records: Vec<VehicleDefinition> = Vec::new();
    let mut i: usize = 0;
    while i < vehicles.len()
        invariant
            i <= vehicles.len(),
            records@.len() == i,
            forall|k: int| 0 <= k < i ==> (#[trigger] records@[k]).same_as(&vehicles@[k].data),
        decreases vehicles.len() - i,
    {
        records.push(vehicles[i].data.clone());
        i = i + 1;
    }
    Ok(TeslaResponse::success(records))
}

/// Answers `GET /api/1/vehicles/{id}`: the public record of one vehicle, for
/// a caller that may read vehicle data. The record of a vehicle that is
/// known under the identifiers of its record carries the identifier asked
/// for.
pub fn vehicle_handler(vehicles: &Vec<Vehicle>, claims: &AccessClaims, id: VehicleId) -> (r: Result<
    VehicleResponse,
    ResponseError,
>)
    ensures
        match target_of(vehicles@, *claims, ScopeEnum::VehicleDeviceData, id) {
            Ok(i) => r matches Ok(TeslaResponse::Success { response }) && response.same_as(
                &vehicles@[i].data,
            ) && (vehicles@[i].wf() ==> response.id == id),
            Err(e) => r matches Err(error) && error@ == e,
        },
{
    match authorize(vehicles, claims, ScopeEnum::VehicleDeviceData, id) {
        Ok(i) => Ok(TeslaResponse::success(vehicles[i].data.clone())),
        Err(e) => Err(e),
    }
}

/// Decides `GET /api/1/vehicles/{id}/vehicle_data`: the vehicle whose
/// simulator is to be asked for its data, for a caller that may read vehicle
/// data.
pub fn vehicle_data_target(
    vehicles: &Vec<Vehicle>,
    claims: &AccessClaims,
    id: VehicleId,
) -> (r: Result<
    usize,
    ResponseError,
>)
    ensures
        is_target(r, vehicles@, *claims, ScopeEnum::VehicleDeviceData, id),
{
    authorize(vehicles, claims, ScopeEnum::VehicleDeviceData, id)
}

/// Answers `GET /api/1/vehicles/{id}/vehicle_data` once the simulator has
/// replied: the data that the mask of the query lets through.
///
/// A failure of the simulator is passed on before the query is looked at. A
/// query that names an unknown endpoint is an invalid command.
pub fn vehicle_data_handler(
    reply: Result<VehicleData, ResponseError>,
    query: &VehicleDataQuery,
) -> (r:
    Result<VehicleDataResponse, ResponseError>)
    ensures
        match reply {
            Err(e) => r matches Err(error) && error == e,
            Ok(data) => match mask_of_query(opt_text(query.endpoints)) {
                Some(mask) => r matches Ok(TeslaResponse::Success { response }) && response
                    == masked(data, mask),
                None => r matches Err(error) && error@ == ResponseErrorView::InvalidCommand,
            },
        },
{
    let data: VehicleData = match reply {
        Ok(data) => data,
        Err(e) => {
            return Err(e);
        },
    };
    let mask: EndpointMask = match parse_endpoints(query) {
        Ok(mask) => mask,
        Err(e) => {
            return Err(e);
        },
    };
    Ok(TeslaResponse::success(mask_vehicle_data(data, &mask)))
}

/// Decides `POST /api/1/vehicles/{id}/wake_up`: the vehicle whose simulator
/// is to be woken, for a caller that may send commands.
pub fn wake_up_target(vehicles: &Vec<Vehicle>, claims: &AccessClaims, id: VehicleId) -> (r: Result<
    usize,
    ResponseError,
>)
    ensures
        is_target(r, vehicles@, *claims, ScopeEnum::VehicleCmds, id),
{
    authorize(vehicles, claims, ScopeEnum::VehicleCmds, id)
}

/// Whether `r` answers with the public record of `vehicle`, under the
/// identifier by which the vehicle is known.
pub open spec fn is_record_of(r: Result<VehicleResponse, ResponseError>, vehicle: Vehicle) -> bool {
    r matches Ok(TeslaResponse::Success { response }) && response.same_as(&vehicle.data) && (
    vehicle.wf() ==> response.id == vehicle.id)
}

/// Answers `POST /api/1/vehicles/{id}/wake_up` once the simulator has
/// replied: the public record of the vehicle, whether it is awake or only
/// on its way to waking. Any other failure of the simulator is passed on.
pub fn wake_up_handler(vehicle: &Vehicle, reply: Result<(), ResponseError>) -> (r: Result<
    VehicleResponse,
    ResponseError,
>)
    ensures
        match reply {
            Ok(()) => is_record_of(r, *vehicle),
            Err(e) => if e@ == ResponseErrorView::DeviceNotAvailable {
                is_record_of(r, *vehicle)
            } else {
                r matches Err(error) && error == e
            },
        },
{
    match reply {
        Ok(()) => Ok(TeslaResponse::success(vehicle.data.clone())),
        Err(ResponseError::DeviceNotAvailable) => Ok(TeslaResponse::success(vehicle.data.clone())),
        Err(e) => Err(e),
    }
}

/// Decides `POST /api/1/vehicles/{id}/simulate`: the vehicle whose simulator
/// is to be put into the state of the request, for a caller that may send
/// commands. The simulator's reply is the answer.
pub fn simulate_handler(
    vehicles: &Vec<Vehicle>,
    claims: &AccessClaims,
    id: VehicleId,
) -> (r: Result<
    usize,
    ResponseError,
>)
    ensures
        is_target(r, vehicles@, *claims, ScopeEnum::VehicleCmds, id),
{
    authorize(vehicles, claims, ScopeEnum::VehicleCmds, id)
}

} // verus!
