//! The vehicles that a server knows when nobody has told it otherwise.

use crate::text::views;
use crate::types::{VehicleDefinition, VehicleGuid, VehicleId, VehicleStateEnum};
use vstd::prelude::*;

verus! {

/// Whether `r` is the public record of a demonstration vehicle with the
/// given identifiers.
pub open spec fn is_demo_vehicle(r: VehicleDefinition, id: u64, guid: u64) -> bool {
    &&& r.id == VehicleId(id)
    &&& r.vehicle_id == VehicleGuid(guid)
    &&& r.vin@ == "5YJ3E1EA7JF000000"@
    &&& r.display_name@ == "My Model 3"@
    &&& r.option_codes matches Some(codes) && codes@
        == "AD15,MDL3,PBSB,RENA,BT37,ID3W,RF3G,S3PB,DRLH,APF0,COUS,BC3B,CH07,PC30,FC3P,FG31,GLFR,HL31,HM31,IL31,LLP1,LP01,MR31,FM3B,RS3H,SA3P,STCP,SC04,ST01,SU3C,T3CA,TW00,TM00,UT3P,WR00,AU3P,APH3,AF00,ZCST,MI00,CDM0"@
    &&& r.color matches Some(color) && color@ == "Black"@
    &&& views(r.tokens@) == seq!["abcdef1234567890"@]
    &&& r.state is Online
    &&& r.in_service == false
    &&& r.id_s@ == "12345678901234567"@
    &&& r.calendar_enabled == true
    &&& r.api_version == 6
    &&& r.backseat_token is None
    &&& r.backseat_token_updated_at is None
}

fn demo_vehicle(id: u64, guid: u64) -> (r: VehicleDefinition)
    ensures
        is_demo_vehicle(r, id, guid),
{
    let mut tokens: Vec<String> = Vec::new();
    tokens.push("abcdef1234567890".to_owned());
    assert(views(tokens@) =~= seq!["abcdef1234567890"@]);
    VehicleDefinition {
        id: VehicleId(id),
        vehicle_id: VehicleGuid(guid),
        vin: "5YJ3E1EA7JF000000".to_owned(),
        display_name: "My Model 3".to_owned(),
        option_codes: Some(
            "AD15,MDL3,PBSB,RENA,BT37,ID3W,RF3G,S3PB,DRLH,APF0,COUS,BC3B,CH07,PC30,FC3P,FG31,GLFR,HL31,HM31,IL31,LLP1,LP01,MR31,FM3B,RS3H,SA3P,STCP,SC04,ST01,SU3C,T3CA,TW00,TM00,UT3P,WR00,AU3P,APH3,AF00,ZCST,MI00,CDM0".to_owned(),
        ),
        color: Some("Black".to_owned()),
        tokens,
        state: VehicleStateEnum::Online,
        in_service: false,
        id_s: "12345678901234567".to_owned(),
        calendar_enabled: true,
        api_version: 6,
        backseat_token: None,
        backseat_token_updated_at: None,
    }
}

/// The public records of the two demonstration vehicles.
pub fn get_vehicles() -> (r: Vec<VehicleDefinition>)
    ensures
        r@.len() == 2,
        is_demo_vehicle(r@[0], 123_456_789, 999_456_789),
        is_demo_vehicle(r@[1], 123_456_000, 999_456_000),
{
    let mut vehicles: Vec<VehicleDefinition> = Vec::new();
    vehicles.push(demo_vehicle(123_456_789, 999_456_789));
    vehicles.push(demo_vehicle(123_456_000, 999_456_000));
    vehicles
}

} // verus!
