//! The full data of a vehicle and the mask that selects which parts of it a
//! caller gets to see.

use crate::errors::{ResponseError, ResponseErrorView};
use crate::records::{
    ChargeState, ClimateState, DriveState, GranularAccess, GuiSettings, VehicleConfig,
    VehicleState,
};
use crate::text::{opt_text, split, split_on, str_eq, views};
use crate::types::{Timestamp, VehicleGuid, VehicleId, VehicleStateEnum};
use vstd::prelude::*;
use vstd::string::*;

verus! {

/// The parts of a vehicle's data that a caller can ask for.
#[derive(Debug, Clone, Copy, PartialEq, Eq, Hash, Structural)]
pub enum VehicleDataEndpoint {
    ChargeState,
    ClimateState,
    ClosuresState,
    DriveState,
    GuiSettings,
    LocationData,
    VehicleConfig,
    VehicleState,
    VehicleDataCombo,
}

/// The name of an endpoint in a query.
pub open spec fn endpoint_name(e: VehicleDataEndpoint) -> Seq<char> {
    match e {
        VehicleDataEndpoint::ChargeState => "charge_state"@,
        VehicleDataEndpoint::ClimateState => "climate_state"@,
        VehicleDataEndpoint::ClosuresState => "closures_state"@,
        VehicleDataEndpoint::DriveState => "drive_state"@,
        VehicleDataEndpoint::GuiSettings => "gui_settings"@,
        VehicleDataEndpoint::LocationData => "location_data"@,
        VehicleDataEndpoint::VehicleConfig => "vehicle_config"@,
        VehicleDataEndpoint::VehicleState => "vehicle_state"@,
        VehicleDataEndpoint::VehicleDataCombo => "vehicle_data_combo"@,
    }
}

/// The endpoint that a name denotes, if any.
pub open spec fn endpoint_of_name(name: Seq<char>) -> Option<VehicleDataEndpoint> {
    if name == "charge_state"@ {
        Some(VehicleDataEndpoint::ChargeState)
    } else if name == "climate_state"@ {
        Some(VehicleDataEndpoint::ClimateState)
    } else if name == "closures_state"@ {
        Some(VehicleDataEndpoint::ClosuresState)
    } else if name == "drive_state"@ {
        Some(VehicleDataEndpoint::DriveState)
    } else if name == "gui_settings"@ {
        Some(VehicleDataEndpoint::GuiSettings)
    } else if name == "location_data"@ {
        Some(VehicleDataEndpoint::LocationData)
    } else if name == "vehicle_config"@ {
        Some(VehicleDataEndpoint::VehicleConfig)
    } else if name == "vehicle_state"@ {
        Some(VehicleDataEndpoint::VehicleState)
    } else if name == "vehicle_data_combo"@ {
        Some(VehicleDataEndpoint::VehicleDataCombo)
    } else {
        None
    }
}

/// Every endpoint is found again by its name.
pub proof fn lemma_endpoint_name_roundtrip(e: VehicleDataEndpoint)
    ensures
        endpoint_of_name(endpoint_name(e)) == Some(e),
{
    reveal_strlit("charge_state");
    reveal_strlit("climate_state");
    reveal_strlit("closures_state");
    reveal_strlit("drive_state");
    reveal_strlit("gui_settings");
    reveal_strlit("location_data");
    reveal_strlit("vehicle_config");
    reveal_strlit("vehicle_state");
    reveal_strlit("vehicle_data_combo");
    assert("charge_state"@.len() == 12 && "charge_state"@[1] == 'h');
    assert("climate_state"@.len() == 13 && "climate_state"@[2] == 'i');
    assert("closures_state"@.len() == 14);
    assert("drive_state"@.len() == 11);
    assert("gui_settings"@.len() == 12 && "gui_settings"@[1] == 'u');
    assert("location_data"@.len() == 13 && "location_data"@[2] == 'c');
    assert("vehicle_config"@.len() == 14 && "vehicle_config"@[0] == 'v');
    assert("vehicle_state"@.len() == 13 && "vehicle_state"@[0] == 'v');
    assert("vehicle_data_combo"@.len() == 18);
    assert("closures_state"@[0] == 'c');
    assert("climate_state"@[0] == 'c');
    assert("location_data"@[0] == 'l');
}

impl VehicleDataEndpoint {
    /// Reads the name of an endpoint. An unknown name is an error whose
    /// text quotes it.
    pub fn from_str(s: &str) -> (r: Result<Self, String>)
        ensures
            match endpoint_of_name(s@) {
                Some(e) => r == Ok::<VehicleDataEndpoint, String>(e),
                None => r is Err && r->Err_0@ == "Invalid endpoint: "@ + s@,
            },
    {
        if str_eq(s, "charge_state") {
            Ok(VehicleDataEndpoint::ChargeState)
        } else if str_eq(s, "climate_state") {
            Ok(VehicleDataEndpoint::ClimateState)
        } else if str_eq(s, "closures_state") {
            Ok(VehicleDataEndpoint::ClosuresState)
        } else if str_eq(s, "drive_state") {
            Ok(VehicleDataEndpoint::DriveState)
        } else if str_eq(s, "gui_settings") {
            Ok(VehicleDataEndpoint::GuiSettings)
        } else if str_eq(s, "location_data") {
            Ok(VehicleDataEndpoint::LocationData)
        } else if str_eq(s, "vehicle_config") {
            Ok(VehicleDataEndpoint::VehicleConfig)
        } else if str_eq(s, "vehicle_state") {
            Ok(VehicleDataEndpoint::VehicleState)
        } else if str_eq(s, "vehicle_data_combo") {
            Ok(VehicleDataEndpoint::VehicleDataCombo)
        } else {
            let mut message: String = "Invalid endpoint: ".to_owned();
            message.append(s);
            Err(message)
        }
    }

    /// The name of the endpoint in a query.
    pub fn to_string(&self) -> (r: String)
        ensures
            r@ == endpoint_name(*self),
    {
        match self {
            VehicleDataEndpoint::ChargeState => "charge_state".to_owned(),
            VehicleDataEndpoint::ClimateState => "climate_state".to_owned(),
            VehicleDataEndpoint::ClosuresState => "closures_state".to_owned(),
            VehicleDataEndpoint::DriveState => "drive_state".to_owned(),
            VehicleDataEndpoint::GuiSettings => "gui_settings".to_owned(),
            VehicleDataEndpoint::LocationData => "location_data".to_owned(),
            VehicleDataEndpoint::VehicleConfig => "vehicle_config".to_owned(),
            VehicleDataEndpoint::VehicleState => "vehicle_state".to_owned(),
            VehicleDataEndpoint::VehicleDataCombo => "vehicle_data_combo".to_owned(),
        }
    }
}

/// A set of endpoints: one flag per endpoint.
///
/// As with the set of scopes, a hash set of endpoints would rest on a
/// derived hash of which the verifier knows nothing; with flags, membership
/// is a field and the view is the set that the contracts speak of.
#[derive(Debug, Clone, Copy, PartialEq, Eq, Structural)]
pub struct EndpointMask {
    pub charge_state: bool,
    pub climate_state: bool,
    pub closures_state: bool,
    pub drive_state: bool,
    pub gui_settings: bool,
    pub location_data: bool,
    pub vehicle_config: bool,
    pub vehicle_state: bool,
    pub vehicle_data_combo: bool,
}

impl EndpointMask {
    /// Whether the endpoint is in the set.
    pub open spec fn has(self, e: VehicleDataEndpoint) -> bool {
        match e {
            VehicleDataEndpoint::ChargeState => self.charge_state,
            VehicleDataEndpoint::ClimateState => self.climate_state,
            VehicleDataEndpoint::ClosuresState => self.closures_state,
            VehicleDataEndpoint::DriveState => self.drive_state,
            VehicleDataEndpoint::GuiSettings => self.gui_settings,
            VehicleDataEndpoint::LocationData => self.location_data,
            VehicleDataEndpoint::VehicleConfig => self.vehicle_config,
            VehicleDataEndpoint::VehicleState => self.vehicle_state,
            VehicleDataEndpoint::VehicleDataCombo => self.vehicle_data_combo,
        }
    }

    /// The set with `e` added.
    pub open spec fn with(self, e: VehicleDataEndpoint) -> EndpointMask {
        match e {
            VehicleDataEndpoint::ChargeState => EndpointMask { charge_state: true, ..self },
            VehicleDataEndpoint::ClimateState => EndpointMask { climate_state: true, ..self },
            VehicleDataEndpoint::ClosuresState => EndpointMask { closures_state: true, ..self },
            VehicleDataEndpoint::DriveState => EndpointMask { drive_state: true, ..self },
            VehicleDataEndpoint::GuiSettings => EndpointMask { gui_settings: true, ..self },
            VehicleDataEndpoint::LocationData => EndpointMask { location_data: true, ..self },
            VehicleDataEndpoint::VehicleConfig => EndpointMask { vehicle_config: true, ..self },
            VehicleDataEndpoint::VehicleState => EndpointMask { vehicle_state: true, ..self },
            VehicleDataEndpoint::VehicleDataCombo => EndpointMask {
                vehicle_data_combo: true,
                ..self
            },
        }
    }

    /// The set without any endpoint.
    pub open spec fn none() -> EndpointMask {
        EndpointMask {
            charge_state: false,
            climate_state: false,
            closures_state: false,
            drive_state: false,
            gui_settings: false,
            location_data: false,
            vehicle_config: false,
            vehicle_state: false,
            vehicle_data_combo: false,
        }
    }

    /// The empty set.
    pub fn new() -> (r: Self)
        ensures
            r == EndpointMask::none(),
    {
        EndpointMask {
            charge_state: false,
            climate_state: false,
            closures_state: false,
            drive_state: false,
            gui_settings: false,
            location_data: false,
            vehicle_config: false,
            vehicle_state: false,
            vehicle_data_combo: false,
        }
    }

    /// Adds an endpoint.
    pub fn insert(&mut self, e: VehicleDataEndpoint)
        ensures
            *final(self) == old(self).with(e),
    {
        match e {
            VehicleDataEndpoint::ChargeState => {
                self.charge_state = true;
            },
            VehicleDataEndpoint::ClimateState => {
                self.climate_state = true;
            },
            VehicleDataEndpoint::ClosuresState => {
                self.closures_state = true;
            },
            VehicleDataEndpoint::DriveState => {
                self.drive_state = true;
            },
            VehicleDataEndpoint::GuiSettings => {
                self.gui_settings = true;
            },
            VehicleDataEndpoint::LocationData => {
                self.location_data = true;
            },
            VehicleDataEndpoint::VehicleConfig => {
                self.vehicle_config = true;
            },
            VehicleDataEndpoint::VehicleState => {
                self.vehicle_state = true;
            },
            VehicleDataEndpoint::VehicleDataCombo => {
                self.vehicle_data_combo = true;
            },
        }
    }

    /// Whether the endpoint is in the set.
    pub fn contains(&self, e: VehicleDataEndpoint) -> (r: bool)
        ensures
            r == self.has(e),
    {
        match e {
            VehicleDataEndpoint::ChargeState => self.charge_state,
            VehicleDataEndpoint::ClimateState => self.climate_state,
            VehicleDataEndpoint::ClosuresState => self.closures_state,
            VehicleDataEndpoint::DriveState => self.drive_state,
            VehicleDataEndpoint::GuiSettings => self.gui_settings,
            VehicleDataEndpoint::LocationData => self.location_data,
            VehicleDataEndpoint::VehicleConfig => self.vehicle_config,
            VehicleDataEndpoint::VehicleState => self.vehicle_state,
            VehicleDataEndpoint::VehicleDataCombo => self.vehicle_data_combo,
        }
    }
}

/// Everything that is known of a vehicle. Each sub-record is present only
/// if the caller asked for it.
#[derive(Debug, PartialEq, Eq)]
pub struct VehicleData {
    pub id: VehicleId,
    pub user_id: i64,
    pub vehicle_id: VehicleGuid,
    pub vin: String,
    pub color: Option<String>,
    pub access_type: String,
    pub granular_access: GranularAccess,
    pub tokens: Vec<String>,
    pub state: VehicleStateEnum,
    pub in_service: bool,
    pub id_s: String,
    pub calendar_enabled: bool,
    pub api_version: i64,
    pub backseat_token: Option<String>,
    pub backseat_token_updated_at: Option<Timestamp>,
    pub charge_state: Option<ChargeState>,
    pub climate_state: Option<ClimateState>,
    pub drive_state: Option<DriveState>,
    pub gui_settings: Option<GuiSettings>,
    pub vehicle_config: Option<VehicleConfig>,
    pub vehicle_state: Option<VehicleState>,
}

/// The query of a data request.
#[derive(Debug, PartialEq, Eq)]
pub struct VehicleDataQuery {
    /// The endpoints asked for, separated by semicolons.
    pub endpoints: Option<String>,
}

/// The set of the endpoints that the names denote; `None` if one of them
/// denotes no endpoint.
pub open spec fn mask_of_names(names: Seq<Seq<char>>) -> Option<EndpointMask>
    decreases names.len(),
{
    if names.len() == 0 {
        Some(EndpointMask::none())
    } else {
        match (mask_of_names(names.drop_last()), endpoint_of_name(names.last())) {
            (Some(mask), Some(e)) => Some(mask.with(e)),
            _ => None,
        }
    }
}

/// The set of endpoints that a query asks for: none without a list, else
/// those named in the list; `None` if the list holds an unknown name.
pub open spec fn mask_of_query(endpoints: Option<Seq<char>>) -> Option<EndpointMask> {
    match endpoints {
        Some(list) => mask_of_names(split(list, ';')),
        None => Some(EndpointMask::none()),
    }
}

/// Reads the endpoint list of a query. An unknown name makes the whole
/// request an invalid command.
pub fn parse_endpoints(query: &VehicleDataQuery) -> (r: Result<EndpointMask, ResponseError>)
    ensures
        match mask_of_query(opt_text(query.endpoints)) {
            Some(mask) => r == Ok::<EndpointMask, ResponseError>(mask),
            None => r is Err && r->Err_0@ == ResponseErrorView::InvalidCommand,
        },
{
    let mut mask: EndpointMask = EndpointMask::new();
    match &query.endpoints {
        None => Ok(mask),
        Some(list) => {
            let names: Vec<String> = split_on(list.as_str(), ';');
            let mut i: usize = 0;
            assert(views(names@).subrange(0, 0) =~= Seq::<Seq<char>>::empty());
            while i < names.len()
                invariant
                    i <= names.len(),
                    opt_text(query.endpoints) == Some(list@),
                    views(names@) == split(list@, ';'),
                    mask_of_names(views(names@).subrange(0, i as int)) == Some(mask),
                decreases names.len() - i,
            {
                proof {
                    let next = views(names@).subrange(0, i + 1);
                    assert(next.drop_last() =~= views(names@).subrange(0, i as int));
                    assert(next.last() == names@[i as int]@);
                }
                match VehicleDataEndpoint::from_str(names[i].as_str()) {
                    Ok(e) => {
                        mask.insert(e);
                    },
                    Err(_) => {
                        proof {
                            lemma_mask_of_names_prefix(views(names@), i + 1);
                        }
                        return Err(ResponseError::InvalidCommand);
                    },
                }
                i = i + 1;
            }
            assert(views(names@).subrange(0, names.len() as int) =~= views(names@));
            Ok(mask)
        },
    }
}

/// If the first `k` names do not all denote endpoints, neither do all names.
pub proof fn lemma_mask_of_names_prefix(names: Seq<Seq<char>>, k: int)
    requires
        0 <= k <= names.len(),
        mask_of_names(names.subrange(0, k)) is None,
    ensures
        mask_of_names(names) is None,
    decreases names.len() - k,
{
    if k == names.len() {
        assert(names.subrange(0, k) =~= names);
    } else {
        let next = names.subrange(0, k + 1);
        assert(next.drop_last() =~= names.subrange(0, k));
        lemma_mask_of_names_prefix(names, k + 1);
    }
}

/// The position of a drive state as the mask lets it through: hidden unless
/// location data was asked for.
pub open spec fn masked_drive_state(ds: DriveState, mask: EndpointMask) -> DriveState {
    DriveState {
        latitude: if mask.location_data {
            ds.latitude
        } else {
            None
        },
        longitude: if mask.location_data {
            ds.longitude
        } else {
            None
        },
        ..ds
    }
}

/// The data that a mask lets through: a sub-record stays if its endpoint is
/// in the mask, and the position within the drive state stays only if
/// location data is in the mask too. Everything else is untouched.
pub open spec fn masked(data: VehicleData, mask: EndpointMask) -> VehicleData {
    VehicleData {
        charge_state: if mask.charge_state {
            data.charge_state
        } else {
            None
        },
        climate_state: if mask.climate_state {
            data.climate_state
        } else {
            None
        },
        drive_state: if mask.drive_state {
            match data.drive_state {
                Some(ds) => Some(masked_drive_state(ds, mask)),
                None => None,
            }
        } else {
            None
        },
        gui_settings: if mask.gui_settings {
            data.gui_settings
        } else {
            None
        },
        vehicle_config: if mask.vehicle_config {
            data.vehicle_config
        } else {
            None
        },
        vehicle_state: if mask.vehicle_state {
            data.vehicle_state
        } else {
            None
        },
        ..data
    }
}

/// Removes from the data what the mask does not let through.
pub fn mask_vehicle_data(data: VehicleData, mask: &EndpointMask) -> (r: VehicleData)
    ensures
        r == masked(data, *mask),
{
    let mut data = data;
    if !mask.charge_state {
        data.charge_state = None;
    }
    if !mask.climate_state {
        data.climate_state = None;
    }
    if mask.drive_state {
        if !mask.location_data {
            match data.drive_state {
                Some(ds) => {
                    let mut ds = ds;
                    ds.latitude = None;
                    ds.longitude = None;
                    data.drive_state = Some(ds);
                },
                None => {},
            }
        }
    } else {
        data.drive_state = None;
    }
    if !mask.gui_settings {
        data.gui_settings = None;
    }
    if !mask.vehicle_config {
        data.vehicle_config = None;
    }
    if !mask.vehicle_state {
        data.vehicle_state = None;
    }
    data
}

/// Whether the data holds every sub-record and a position, as the data of a
/// simulator does.
pub open spec fn complete(data: VehicleData) -> bool {
    &&& data.charge_state is Some
    &&& data.climate_state is Some
    &&& data.drive_state is Some
    &&& data.drive_state->0.latitude is Some
    &&& data.drive_state->0.longitude is Some
    &&& data.gui_settings is Some
    &&& data.vehicle_config is Some
    &&& data.vehicle_state is Some
}

/// Of complete data, a mask lets through exactly the sub-records whose
/// endpoint it holds, and the position exactly when it holds both the drive
/// state and location data.
pub proof fn lemma_mask_selects(data: VehicleData, mask: EndpointMask)
    requires
        complete(data),
    ensures
        masked(data, mask).charge_state is Some <==> mask.has(VehicleDataEndpoint::ChargeState),
        masked(data, mask).climate_state is Some <==> mask.has(VehicleDataEndpoint::ClimateState),
        masked(data, mask).drive_state is Some <==> mask.has(VehicleDataEndpoint::DriveState),
        masked(data, mask).gui_settings is Some <==> mask.has(VehicleDataEndpoint::GuiSettings),
        masked(data, mask).vehicle_config is Some <==> mask.has(
            VehicleDataEndpoint::VehicleConfig,
        ),
        masked(data, mask).vehicle_state is Some <==> mask.has(VehicleDataEndpoint::VehicleState),
        (masked(data, mask).drive_state is Some && masked(data, mask).drive_state->0.latitude
            is Some) <==> (mask.has(VehicleDataEndpoint::DriveState) && mask.has(
            VehicleDataEndpoint::LocationData,
        )),
        (masked(data, mask).drive_state is Some && masked(data, mask).drive_state->0.longitude
            is Some) <==> (mask.has(VehicleDataEndpoint::DriveState) && mask.has(
            VehicleDataEndpoint::LocationData,
        )),
{
}

/// What a mask lets through is what was there: a sub-record that stays is
/// the original one, but for the position.
pub proof fn lemma_mask_keeps(data: VehicleData, mask: EndpointMask)
    ensures
        mask.has(VehicleDataEndpoint::ChargeState) ==> masked(data, mask).charge_state
            == data.charge_state,
        mask.has(VehicleDataEndpoint::ClimateState) ==> masked(data, mask).climate_state
            == data.climate_state,
        mask.has(VehicleDataEndpoint::GuiSettings) ==> masked(data, mask).gui_settings
            == data.gui_settings,
        mask.has(VehicleDataEndpoint::VehicleConfig) ==> masked(data, mask).vehicle_config
            == data.vehicle_config,
        mask.has(VehicleDataEndpoint::VehicleState) ==> masked(data, mask).vehicle_state
            == data.vehicle_state,
        mask.has(VehicleDataEndpoint::DriveState) && mask.has(VehicleDataEndpoint::LocationData)
            ==> masked(data, mask).drive_state == data.drive_state,
        masked(data, mask).id == data.id,
        masked(data, mask).vehicle_id == data.vehicle_id,
        masked(data, mask).state == data.state,
{
}

} // verus!
