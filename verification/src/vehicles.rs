//! The fleet: the vehicles that the server knows, each with its public
//! record, and how that record follows the state of the vehicle's simulator.

use crate::simulator::actor::{next_state, Event};
use crate::simulator::types::{Instant, SimulationState, VehicleDataState};
use crate::simulator::SimulationStateEnum;
use crate::types::{
    online_state, VehicleDefinition, VehicleGuid, VehicleId, VehicleStateEnum, VehicleStateView,
};
use vstd::prelude::*;

verus! {

/// A vehicle of the fleet: its two identifiers and its public record.
#[derive(Debug, PartialEq, Eq)]
pub struct Vehicle {
    /// Identifier on the owner interface.
    pub id: VehicleId,
    /// Identifier on the streaming interface.
    pub vehicle_id: VehicleGuid,
    /// The public record.
    pub data: VehicleDefinition,
}

impl Vehicle {
    /// Whether the vehicle is known under the identifiers that its record
    /// names. `new` makes such a vehicle, and `observe` keeps it so.
    pub open spec fn wf(self) -> bool {
        self.data.id == self.id && self.data.vehicle_id == self.vehicle_id
    }

    /// The vehicle with the given record, under the identifiers that the
    /// record names.
    pub fn new(data: VehicleDefinition) -> (r: Vehicle)
        ensures
            r.id == data.id,
            r.vehicle_id == data.vehicle_id,
            r.data == data,
            r.wf(),
    {
        Vehicle { id: data.id, vehicle_id: data.vehicle_id, data }
    }

    /// Takes note that the simulator has announced the state `state`: the
    /// record shows the vehicle offline if it sleeps and online otherwise.
    /// Nothing else in the record changes. Returns whether the record
    /// had shown something else.
    pub fn observe(&mut self, state: SimulationStateEnum) -> (changed: bool)
        ensures
            final(self).data.state@ == online_state(state)@,
            changed == (old(self).data.state@ != online_state(state)@),
            *final(self) == (Vehicle {
                data: VehicleDefinition { state: final(self).data.state, ..old(self).data },
                ..*old(self)
            }),
            old(self).wf() ==> final(self).wf(),
    {
        let online: VehicleStateEnum = VehicleStateEnum::from(state);
        if self.data.state.same_as(&online) {
            false
        } else {
            self.data.state = online;
            true
        }
    }
}

/// The position of the first vehicle with the owner identifier `id`.
pub open spec fn position_of_id(vehicles: Seq<Vehicle>, id: VehicleId) -> Option<int>
    decreases vehicles.len(),
{
    if vehicles.len() == 0 {
        None
    } else {
        match position_of_id(vehicles.drop_last(), id) {
            Some(i) => Some(i),
            None => if vehicles.last().id == id {
                Some(vehicles.len() - 1)
            } else {
                None
            },
        }
    }
}

/// The position of the first vehicle with the streaming identifier `guid`.
pub open spec fn position_of_guid(vehicles: Seq<Vehicle>, guid: VehicleGuid) -> Option<int>
    decreases vehicles.len(),
{
    if vehicles.len() == 0 {
        None
    } else {
        match position_of_guid(vehicles.drop_last(), guid) {
            Some(i) => Some(i),
            None => if vehicles.last().vehicle_id == guid {
                Some(vehicles.len() - 1)
            } else {
                None
            },
        }
    }
}

/// A position that is found is within the fleet and holds the identifier;
/// nothing before it does. If none is found no vehicle holds it.
pub proof fn lemma_position_of_id(vehicles: Seq<Vehicle>, id: VehicleId)
    ensures
        match position_of_id(vehicles, id) {
            Some(i) => 0 <= i < vehicles.len() && vehicles[i].id == id && forall|j: int|
                0 <= j < i ==> vehicles[j].id != id,
            None => forall|j: int| 0 <= j < vehicles.len() ==> vehicles[j].id != id,
        },
    decreases vehicles.len(),
{
    if vehicles.len() > 0 {
        let front = vehicles.drop_last();
        lemma_position_of_id(front, id);
        assert forall|j: int| 0 <= j < front.len() implies front[j] == vehicles[j] by {}
    }
}

/// A position that is found is within the fleet and holds the identifier;
/// nothing before it does. If none is found no vehicle holds it.
pub proof fn lemma_position_of_guid(vehicles: Seq<Vehicle>, guid: VehicleGuid)
    ensures
        match position_of_guid(vehicles, guid) {
            Some(i) => 0 <= i < vehicles.len() && vehicles[i].vehicle_id == guid && forall|j: int|
                0 <= j < i ==> vehicles[j].vehicle_id != guid,
            None => forall|j: int| 0 <= j < vehicles.len() ==> vehicles[j].vehicle_id != guid,
        },
    decreases vehicles.len(),
{
    if vehicles.len() > 0 {
        let front = vehicles.drop_last();
        lemma_position_of_guid(front, guid);
        assert forall|j: int| 0 <= j < front.len() implies front[j] == vehicles[j] by {}
    }
}

/// Looks a vehicle up by its owner identifier.
pub fn find_by_id(vehicles: &Vec<Vehicle>, id: VehicleId) -> (r: Option<usize>)
    ensures
        match position_of_id(vehicles@, id) {
            Some(i) => r matches Some(found) && found == i && 0 <= i < vehicles@.len()
                && vehicles@[i].id == id,
            None => r is None,
        },
{
    proof {
        lemma_position_of_id(vehicles@, id);
    }
    let mut i: usize = 0;
    assert(vehicles@.subrange(0, 0) =~= Seq::<Vehicle>::empty());
    while i < vehicles.len()
        invariant
            i <= vehicles.len(),
            position_of_id(vehicles@.subrange(0, i as int), id) is None,
        decreases vehicles.len() - i,
    {
        let ghost next = vehicles@.subrange(0, i + 1);
        assert(next.drop_last() =~= vehicles@.subrange(0, i as int));
        if vehicles[i].id.0 == id.0 {
            proof {
                lemma_position_extends_id(vehicles@, id, i + 1);
            }
            return Some(i);
        }
        i = i + 1;
    }
    assert(vehicles@.subrange(0, vehicles.len() as int) =~= vehicles@);
    None
}

/// Looks a vehicle up by its streaming identifier.
pub fn find_by_guid(vehicles: &Vec<Vehicle>, guid: VehicleGuid) -> (r: Option<usize>)
    ensures
        match position_of_guid(vehicles@, guid) {
            Some(i) => r matches Some(found) && found == i && 0 <= i < vehicles@.len()
                && vehicles@[i].vehicle_id == guid,
            None => r is None,
        },
{
    proof {
        lemma_position_of_guid(vehicles@, guid);
    }
    let mut i: usize = 0;
    assert(vehicles@.subrange(0, 0) =~= Seq::<Vehicle>::empty());
    while i < vehicles.len()
        invariant
            i <= vehicles.len(),
            position_of_guid(vehicles@.subrange(0, i as int), guid) is None,
        decreases vehicles.len() - i,
    {
        let ghost next = vehicles@.subrange(0, i + 1);
        assert(next.drop_last() =~= vehicles@.subrange(0, i as int));
        if vehicles[i].vehicle_id.0 == guid.0 {
            proof {
                lemma_position_extends_guid(vehicles@, guid, i + 1);
            }
            return Some(i);
        }
        i = i + 1;
    }
    assert(vehicles@.subrange(0, vehicles.len() as int) =~= vehicles@);
    None
}

proof fn lemma_position_extends_id(vehicles: Seq<Vehicle>, id: VehicleId, k: int)
    requires
        0 <= k <= vehicles.len(),
        position_of_id(vehicles.subrange(0, k), id) is Some,
    ensures
        position_of_id(vehicles, id) == position_of_id(vehicles.subrange(0, k), id),
    decreases vehicles.len() - k,
{
    if k == vehicles.len() {
        assert(vehicles.subrange(0, k) =~= vehicles);
    } else {
        let next = vehicles.subrange(0, k + 1);
        assert(next.drop_last() =~= vehicles.subrange(0, k));
        lemma_position_extends_id(vehicles, id, k + 1);
    }
}

proof fn lemma_position_extends_guid(vehicles: Seq<Vehicle>, guid: VehicleGuid, k: int)
    requires
        0 <= k <= vehicles.len(),
        position_of_guid(vehicles.subrange(0, k), guid) is Some,
    ensures
        position_of_guid(vehicles, guid) == position_of_guid(vehicles.subrange(0, k), guid),
    decreases vehicles.len() - k,
{
    if k == vehicles.len() {
        assert(vehicles.subrange(0, k) =~= vehicles);
    } else {
        let next = vehicles.subrange(0, k + 1);
        assert(next.drop_last() =~= vehicles.subrange(0, k));
        lemma_position_extends_guid(vehicles, guid, k + 1);
    }
}

/// What the simulator announces after an event: the new kind of state if
/// the kind has changed.
pub open spec fn announced(
    ss: SimulationState,
    data: VehicleDataState,
    event: Event,
    now: Instant,
) -> Option<
    SimulationStateEnum,
> {
    let next = next_state(ss, data, event, now);
    if next.kind() != ss.kind() {
        Some(next.kind())
    } else {
        None
    }
}

/// What the record shows once an announcement has been observed.
pub open spec fn observed(
    shown: VehicleStateView,
    announcement: Option<SimulationStateEnum>,
) -> VehicleStateView {
    match announcement {
        Some(state) => online_state(state)@,
        None => shown,
    }
}

/// A record that shows the state of its simulator still does so once the
/// simulator has taken a step and the record has observed what the step
/// announced: offline if the vehicle now sleeps, online otherwise.
pub proof fn lemma_record_follows_simulator(
    shown: VehicleStateView,
    ss: SimulationState,
    data: VehicleDataState,
    event: Event,
    now: Instant,
)
    requires
        shown == online_state(ss.kind())@,
    ensures
        observed(shown, announced(ss, data, event, now)) == online_state(
            next_state(ss, data, event, now).kind(),
        )@,
        observed(shown, announced(ss, data, event, now)) == (if next_state(ss, data, event, now)
            is Sleeping {
            VehicleStateView::Offline
        } else {
            VehicleStateView::Online
        }),
{
}

} // verus!
