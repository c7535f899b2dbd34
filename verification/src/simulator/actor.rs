//! One simulated vehicle and the step that advances it.
//!
//! The simulator does not wait and does not talk. Whoever runs it waits for
//! the timer of the current state (see `maybe_update_drive` and its
//! siblings) or for a command, then calls `step` with what happened and the
//! time, and carries out what comes back: the reply to the command, the
//! sample to publish, the change of state to announce.

use crate::decimal::Decimal;
use crate::errors::{ResponseError, ResponseErrorView};
use crate::number::int_text;
use crate::records::{ChargeState, DriveState};
use crate::simulator::server::{
    battery_full, distance_mm, elapsed, get_updated_charge_state, get_updated_drive_state,
    get_vehicle_data, is_charge_record_at, is_charging_record, is_drive_record, is_initial_data,
    level_after_charge, level_after_drive, maybe_sleep, maybe_update_charge, maybe_update_drive,
    maybe_wake_up, state_after_charge, state_after_drive, time_to_full,
};
use crate::simulator::types::{
    reports, sample_of, seconds_of, whole_seconds, Instant, SimulationState, VehicleDataState,
    LAST_INSTANT,
};
use crate::simulator::SimulationStateEnum;
use crate::streaming::{DataError, ErrorType, StreamingData, StreamingDataView};
use crate::types::{
    online_state, ChargingStateEnum, ShiftStateView, Timestamp, VehicleDefinition,
    VehicleStateEnum,
};
use crate::vehicle_data::VehicleData;
use vstd::prelude::*;

verus! {

/// What can be asked of a simulator.
#[derive(Debug, Clone, Copy, PartialEq, Eq, Structural)]
pub enum Command {
    /// Wake the vehicle up.
    WakeUp,
    /// Report everything the vehicle knows of itself.
    GetVehicleData,
    /// Hand out a receiver of the vehicle's samples.
    Subscribe,
    /// Put the vehicle into the given state.
    Simulate(SimulationStateEnum),
    /// Hand out a receiver of the vehicle's changes of state.
    WatchState,
}

/// What can happen to a simulator.
#[derive(Debug, Clone, Copy, PartialEq, Eq, Structural)]
pub enum Event {
    /// The drive is due to advance; the vehicle has come to this position.
    DriveTick { latitude: Decimal, longitude: Decimal },
    /// The charge is due to advance.
    ChargeTick,
    /// The idle vehicle is due to fall asleep.
    Sleep,
    /// The sleeping vehicle is due to wake.
    Wake,
    /// A command has arrived.
    Command(Command),
    /// Nobody can send commands any more.
    Closed,
}

/// Where the receiver that answers a subscription comes from.
#[derive(Debug, Clone, Copy, PartialEq, Eq, Structural)]
pub enum StreamSource {
    /// From a broadcast that has to be set up first.
    New,
    /// From the broadcast that is there.
    Existing,
}

/// The reply to a command.
#[derive(Debug, PartialEq, Eq)]
pub enum Reply {
    /// There is nobody to reply to.
    Nothing,
    WakeUp(Result<(), ResponseError>),
    VehicleData(Result<VehicleData, ResponseError>),
    Subscribe(Result<StreamSource, DataError>),
    Simulate(Result<(), ResponseError>),
    /// A receiver of the changes of state.
    WatchState,
}

/// What a step asks of whoever runs the simulator.
#[derive(Debug, PartialEq, Eq)]
pub struct Outcome {
    /// The reply to the command.
    pub reply: Reply,
    /// A sample to publish to the subscribers.
    pub sample: Option<StreamingData>,
    /// The new kind of state to announce, if the kind has changed.
    pub state_change: Option<SimulationStateEnum>,
    /// Whether to take the broadcast of samples down, which tells every
    /// subscriber that the vehicle is gone.
    pub close_stream: bool,
    /// Whether to stop running the simulator.
    pub exit: bool,
}

/// A simulated vehicle.
#[derive(Debug, PartialEq, Eq)]
pub struct Simulator {
    /// What the vehicle knows of itself.
    pub data: VehicleDataState,
    /// The state the vehicle is in.
    pub ss: SimulationState,
    /// Whether the broadcast of samples is set up.
    pub streaming: bool,
}

/// Whether the state waits for the event. A state waits for its own timer
/// only; commands and the end of commands can always happen.
pub open spec fn awaited(ss: SimulationState, event: Event) -> bool {
    match event {
        Event::DriveTick { .. } => ss is Driving,
        Event::ChargeTick => ss is Charging,
        Event::Sleep => ss is Idle,
        Event::Wake => ss matches SimulationState::Sleeping { wake_up_time: Some(_) },
        Event::Command(_) => true,
        Event::Closed => true,
    }
}

/// The state that a simulation command leads to.
pub open spec fn simulated(
    ss: SimulationState,
    data: VehicleDataState,
    target: SimulationStateEnum,
    now: Instant,
) -> SimulationState {
    match target {
        SimulationStateEnum::Driving => ss.driving(data, now),
        SimulationStateEnum::Charging => ss.charging(data, now),
        SimulationStateEnum::Idle => SimulationState::Idle { sleep_time: (now + 60_000) as u64 },
        SimulationStateEnum::IdleNoSleep => SimulationState::IdleNoSleep,
        SimulationStateEnum::Sleeping => SimulationState::Sleeping { wake_up_time: None },
    }
}

/// Whether the broadcast of samples is up after an awaited event: a
/// subscription to a vehicle that is awake sets it up, and it comes down
/// when the vehicle falls asleep or the battery ends a drive.
pub open spec fn streaming_after(
    streaming: bool,
    ss: SimulationState,
    data: VehicleDataState,
    event: Event,
    now: Instant,
) -> bool {
    let up = streaming || (event == Event::Command(Command::Subscribe) && !(ss is Sleeping));
    let ended = event is DriveTick && !(next_state(ss, data, event, now) is Driving);
    up && !ended && !(next_state(ss, data, event, now) is Sleeping)
}

/// Whether the reply is the one that the command calls for.
pub open spec fn is_reply(reply: Reply, sim: Simulator, event: Event) -> bool {
    match event {
        Event::Command(Command::WakeUp) => reply matches Reply::WakeUp(r) && (if sim.ss
            is Sleeping {
            r is Err && r->Err_0@ == ResponseErrorView::DeviceNotAvailable
        } else {
            r is Ok
        }),
        Event::Command(Command::GetVehicleData) => reply matches Reply::VehicleData(r) && (
        if sim.ss is Sleeping {
            r is Err && r->Err_0@ == ResponseErrorView::DeviceNotAvailable
        } else {
            r is Ok && reports(r->Ok_0, sim.data)
        }),
        Event::Command(Command::Subscribe) => reply matches Reply::Subscribe(r) && (if sim.ss
            is Sleeping {
            r is Err && r->Err_0.tag@ == int_text(sim.data.vehicle_id.0 as int)
                && r->Err_0.error_type == ErrorType::VehicleDisconnected && r->Err_0.value@
                == "disconnected"@
        } else {
            r == Ok::<StreamSource, DataError>(
                if sim.streaming {
                    StreamSource::Existing
                } else {
                    StreamSource::New
                },
            )
        }),
        Event::Command(Command::Simulate(_)) => reply matches Reply::Simulate(r) && r is Ok,
        Event::Command(Command::WatchState) => reply is WatchState,
        _ => reply is Nothing,
    }
}

/// Whether `after` is the drive state that an awaited event leaves behind:
/// that of the step for a step of a drive, and the old one otherwise; and in
/// either case without speed, gear and power once the vehicle has stopped
/// driving.
pub open spec fn is_drive_state_after(
    after: DriveState,
    sim: Simulator,
    event: Event,
    now: Instant,
    timestamp: Timestamp,
) -> bool {
    let stopped = sim.ss is Driving && !(next_state(sim.ss, sim.data, event, now) is Driving);
    match (event, sim.ss) {
        (Event::DriveTick { latitude, longitude }, SimulationState::Driving { state, .. }) =>
            is_drive_record(after, timestamp, latitude, longitude, state.speed as int, !stopped),
        _ => if stopped {
            after == (DriveState {
                speed: None,
                shift_state: None,
                power: None,
                ..sim.data.drive_state
            })
        } else {
            after == sim.data.drive_state
        },
    }
}

/// Whether `after` is the charge state that an awaited event leaves behind:
/// that of the step for a step of a drive or of a charge, and the old one
/// otherwise; and in either case unplugged once the vehicle has stopped
/// charging.
pub open spec fn is_charge_state_after(
    after: ChargeState,
    sim: Simulator,
    event: Event,
    now: Instant,
    timestamp: Timestamp,
) -> bool {
    let stopped = sim.ss is Charging && !(next_state(sim.ss, sim.data, event, now) is Charging);
    match (event, sim.ss) {
        (Event::DriveTick { .. }, SimulationState::Driving { state, .. }) => is_charge_record_at(
            after,
            sim.data.charge_state,
            level_after_drive(
                state.battery_level as int,
                distance_mm(elapsed(now, state.time), state.speed as int),
            ),
        ),
        (Event::ChargeTick, SimulationState::Charging { state, .. }) => is_charging_record(
            after,
            timestamp,
            level_after_charge(state.battery_level as int, elapsed(now, state.time)),
            time_to_full(
                level_after_charge(state.battery_level as int, elapsed(now, state.time)),
                battery_full(state.battery_level as int, elapsed(now, state.time)),
            ),
            !stopped,
        ),
        _ => if stopped {
            after == (ChargeState {
                charging_state: ChargingStateEnum::Disconnected,
                charge_amps: 0,
                ..sim.data.charge_state
            })
        } else {
            after == sim.data.charge_state
        },
    }
}

/// The sample that a step of a drive at `speed` miles per hour yields at
/// the time `time` in milliseconds, given the data that the step leaves
/// behind: what the data amounts to, with the vehicle moving in gear even if
/// the step has ended the drive.
pub open spec fn driving_sample(
    data: VehicleDataState,
    speed: int,
    time: Timestamp,
) -> StreamingDataView {
    StreamingDataView {
        time,
        speed: Some(Decimal { micros: (speed * 1_000_000) as i64 }),
        power: Some(500i32),
        shift_state: Some(ShiftStateView::Drive),
        ..sample_of(data)
    }
}

impl Outcome {
    fn nothing(exit: bool) -> (r: Self)
        ensures
            r.reply is Nothing,
            r.sample is None,
            r.state_change is None,
            !r.close_stream,
            r.exit == exit,
    {
        Outcome { reply: Reply::Nothing, sample: None, state_change: None, close_stream: false, exit }
    }
}

/// A simulator for `vehicle` that starts at `now`, when the wall clock shows
/// `timestamp` milliseconds: idle, with the data of a new vehicle, stamped
/// with the whole seconds of that time, and no subscribers.
pub fn start(vehicle: &VehicleDefinition, now: Instant, timestamp: Timestamp) -> (sim: Simulator)
    requires
        now <= LAST_INSTANT,
    ensures
        is_initial_data(sim.data, *vehicle, seconds_of(timestamp)),
        sim.ss == (SimulationState::Idle { sleep_time: (now + 60_000) as u64 }),
        !sim.streaming,
{
    Simulator {
        data: get_vehicle_data(vehicle, whole_seconds(timestamp)),
        ss: SimulationState::idle(now),
        streaming: false,
    }
}

impl Simulator {
    /// Advances the simulator by one event that happened at `now`, when the
    /// wall clock showed `timestamp` milliseconds. Records are stamped with
    /// the whole seconds of that time, a sample with the milliseconds.
    ///
    /// A timer that the state does not wait for changes nothing, and neither
    /// does the end of commands, which only asks to stop. Any other event
    /// moves the state as `next_state` says and is answered as `is_reply`
    /// says. A step of a drive yields a sample if there are subscribers. The
    /// data always shows whether the vehicle is online; the kind of state is
    /// announced when it has changed.
    pub fn step(&mut self, event: Event, now: Instant, timestamp: Timestamp) -> (out: Outcome)
        requires
            now <= LAST_INSTANT,
        ensures
            out.exit == (event is Closed),
            !awaited(old(self).ss, event) || event is Closed ==> *final(self) == *old(self)
                && out.reply is Nothing && out.sample is None && out.state_change is None
                && !out.close_stream,
            awaited(old(self).ss, event) && !(event is Closed) ==> {
                let next = next_state(old(self).ss, old(self).data, event, now);
                &&& final(self).ss == next
                &&& final(self).streaming == streaming_after(
                    old(self).streaming,
                    old(self).ss,
                    old(self).data,
                    event,
                    now,
                )
                &&& out.close_stream == ((old(self).streaming || (event == Event::Command(
                    Command::Subscribe,
                ) && !(old(self).ss is Sleeping))) && !final(self).streaming)
                &&& out.state_change == (if next.kind() != old(self).ss.kind() {
                    Some(next.kind())
                } else {
                    None
                })
                &&& is_reply(out.reply, *old(self), event)
                &&& final(self).data.state@ == online_state(next.kind())@
                &&& is_drive_state_after(
                    final(self).data.drive_state,
                    *old(self),
                    event,
                    now,
                    seconds_of(timestamp),
                )
                &&& is_charge_state_after(
                    final(self).data.charge_state,
                    *old(self),
                    event,
                    now,
                    seconds_of(timestamp),
                )
                &&& final(self).data.elevation == (if event is DriveTick {
                    0
                } else {
                    old(self).data.elevation
                })
                &&& final(self).data == (VehicleDataState {
                    state: final(self).data.state,
                    drive_state: final(self).data.drive_state,
                    charge_state: final(self).data.charge_state,
                    elevation: final(self).data.elevation,
                    ..old(self).data
                })
                &&& out.sample is Some == (event is DriveTick && old(self).streaming)
                &&& out.sample matches Some(sample) ==> old(self).ss
                    matches SimulationState::Driving { state, .. } && sample@ == driving_sample(
                    final(self).data,
                    state.speed as int,
                    timestamp,
                )
            },
    {
        if let Event::Closed = event {
            return Outcome::nothing(true);
        }
        let old_sse: SimulationStateEnum = SimulationStateEnum::from(&self.ss);
        let reaction: Option<Reaction> = react(
            &mut self.data,
            &self.ss,
            self.streaming,
            event,
            now,
            whole_seconds(timestamp),
            timestamp,
        );
        match reaction {
            None => Outcome::nothing(false),
            Some(reaction) => {
                let new_ss: SimulationState = reaction.ss;
                let new_sse: SimulationStateEnum = SimulationStateEnum::from(&new_ss);
                let changed: bool = !same_kind(old_sse, new_sse);
                leave(&mut self.data, old_sse, new_sse);
                let streaming: bool = reaction.up && !reaction.ended && !new_ss.is_asleep();
                self.streaming = streaming;
                self.ss = new_ss;
                Outcome {
                    reply: reaction.reply,
                    sample: reaction.sample,
                    state_change: if changed {
                        Some(new_sse)
                    } else {
                        None
                    },
                    close_stream: reaction.up && !streaming,
                    exit: false,
                }
            },
        }
    }
}

/// What an event does before the state settles.
struct Reaction {
    /// The state that the event leads to.
    ss: SimulationState,
    reply: Reply,
    sample: Option<StreamingData>,
    /// Whether the broadcast of samples is up.
    up: bool,
    /// Whether the battery has ended a drive.
    ended: bool,
}

/// The state that an awaited event at `now` leads to.
///
/// A timer does what its state is about. Of the commands only two move the
/// vehicle: a wake-up call puts a sleeping vehicle on the way to waking, and
/// a simulation command overrides whatever the vehicle was doing.
pub open spec fn next_state(
    ss: SimulationState,
    data: VehicleDataState,
    event: Event,
    now: Instant,
) -> SimulationState {
    match event {
        Event::DriveTick { .. } => match ss {
            SimulationState::Driving { state, .. } => state_after_drive(ss, data, state, now),
            _ => ss,
        },
        Event::ChargeTick => match ss {
            SimulationState::Charging { state, .. } => state_after_charge(ss, data, state, now),
            _ => ss,
        },
        Event::Sleep => SimulationState::Sleeping { wake_up_time: None },
        Event::Wake => SimulationState::Idle { sleep_time: (now + 60_000) as u64 },
        Event::Command(Command::WakeUp) => if ss is Sleeping {
            ss.waking(now)
        } else {
            ss
        },
        Event::Command(Command::Simulate(target)) => simulated(ss, data, target, now),
        Event::Command(_) => ss,
        Event::Closed => ss,
    }
}

fn answer(
    data: &VehicleDataState,
    ss: &SimulationState,
    streaming: bool,
    command: Command,
    now: Instant,
) -> (r: Reaction)
    requires
        now <= LAST_INSTANT,
    ensures
        r.ss == next_state(*ss, *data, Event::Command(command), now),
        is_reply(r.reply, Simulator { data: *data, ss: *ss, streaming }, Event::Command(command)),
        r.sample is None,
        r.up == (streaming || (command == Command::Subscribe && !(ss is Sleeping))),
        !r.ended,
{
    let asleep: bool = ss.is_asleep();
    match command {
        Command::WakeUp => {
            if asleep {
                Reaction {
                    ss: ss.wake_up(now),
                    reply: Reply::WakeUp(Err(ResponseError::DeviceNotAvailable)),
                    sample: None,
                    up: streaming,
                    ended: false,
                }
            } else {
                Reaction {
                    ss: *ss,
                    reply: Reply::WakeUp(Ok(())),
                    sample: None,
                    up: streaming,
                    ended: false,
                }
            }
        },
        Command::GetVehicleData => {
            let reply: Reply = if asleep {
                Reply::VehicleData(Err(ResponseError::DeviceNotAvailable))
            } else {
                Reply::VehicleData(Ok(VehicleData::from(data)))
            };
            Reaction { ss: *ss, reply, sample: None, up: streaming, ended: false }
        },
        Command::Subscribe => {
            if asleep {
                Reaction {
                    ss: *ss,
                    reply: Reply::Subscribe(Err(DataError::disconnected(data.vehicle_id))),
                    sample: None,
                    up: streaming,
                    ended: false,
                }
            } else if streaming {
                Reaction {
                    ss: *ss,
                    reply: Reply::Subscribe(Ok(StreamSource::Existing)),
                    sample: None,
                    up: true,
                    ended: false,
                }
            } else {
                Reaction {
                    ss: *ss,
                    reply: Reply::Subscribe(Ok(StreamSource::New)),
                    sample: None,
                    up: true,
                    ended: false,
                }
            }
        },
        Command::Simulate(target) => {
            let next: SimulationState = match target {
                SimulationStateEnum::Driving => ss.drive(data, now),
                SimulationStateEnum::Charging => ss.charge(data, now),
                SimulationStateEnum::Idle => SimulationState::idle(now),
                SimulationStateEnum::IdleNoSleep => SimulationState::IdleNoSleep,
                SimulationStateEnum::Sleeping => SimulationState::sleeping(),
            };
            Reaction {
                ss: next,
                reply: Reply::Simulate(Ok(())),
                sample: None,
                up: streaming,
                ended: false,
            }
        },
        Command::WatchState => Reaction {
            ss: *ss,
            reply: Reply::WatchState,
            sample: None,
            up: streaming,
            ended: false,
        },
    }
}

/// Whether `after` is `before` with a new drive state, charge state and
/// elevation and nothing else changed.
pub open spec fn same_vehicle(after: VehicleDataState, before: VehicleDataState) -> bool {
    after == (VehicleDataState {
        state: after.state,
        drive_state: after.drive_state,
        charge_state: after.charge_state,
        elevation: after.elevation,
        ..before
    })
}

fn react(
    data: &mut VehicleDataState,
    ss: &SimulationState,
    streaming: bool,
    event: Event,
    now: Instant,
    timestamp: Timestamp,
    time: Timestamp,
) -> (r: Option<Reaction>)
    requires
        now <= LAST_INSTANT,
        !(event is Closed),
    ensures
        r is Some == awaited(*ss, event),
        r is None ==> *final(data) == *old(data),
        r is Some ==> {
            let reaction = r->0;
            &&& reaction.ss == next_state(*ss, *old(data), event, now)
            &&& is_reply(reaction.reply, Simulator { data: *old(data), ss: *ss, streaming }, event)
            &&& reaction.up == (streaming || (event == Event::Command(Command::Subscribe) && !(ss
                is Sleeping)))
            &&& reaction.ended == (event is DriveTick && !(reaction.ss is Driving))
            &&& same_vehicle(*final(data), *old(data))
            &&& final(data).state == old(data).state
            &&& final(data).elevation == (if event is DriveTick {
                0
            } else {
                old(data).elevation
            })
            &&& match (event, *ss) {
                (
                    Event::DriveTick { latitude, longitude },
                    SimulationState::Driving { state, .. },
                ) => is_drive_record(
                    final(data).drive_state,
                    timestamp,
                    latitude,
                    longitude,
                    state.speed as int,
                    true,
                ) && is_charge_record_at(
                    final(data).charge_state,
                    old(data).charge_state,
                    level_after_drive(
                        state.battery_level as int,
                        distance_mm(elapsed(now, state.time), state.speed as int),
                    ),
                ),
                (Event::ChargeTick, SimulationState::Charging { state, .. }) => final(data).drive_state
                    == old(data).drive_state && is_charging_record(
                    final(data).charge_state,
                    timestamp,
                    level_after_charge(state.battery_level as int, elapsed(now, state.time)),
                    time_to_full(
                        level_after_charge(state.battery_level as int, elapsed(now, state.time)),
                        battery_full(state.battery_level as int, elapsed(now, state.time)),
                    ),
                    true,
                ),
                _ => final(data).drive_state == old(data).drive_state && final(data).charge_state
                    == old(data).charge_state,
            }
            &&& reaction.sample is Some == (event is DriveTick && streaming)
            &&& reaction.sample is Some ==> reaction.sample->0@ == (StreamingDataView {
                time,
                ..sample_of(*final(data))
            })
        },
{
    match event {
        Event::DriveTick { latitude, longitude } => match maybe_update_drive(ss) {
            Some((_, state)) => {
                let (drive_state, elevation, charge_state, next) = get_updated_drive_state(
                    data,
                    ss,
                    &state,
                    now,
                    timestamp,
                    latitude,
                    longitude,
                );
                data.drive_state = drive_state;
                data.elevation = elevation;
                data.charge_state = charge_state;
                let sample: Option<StreamingData> = if streaming {
                    Some(StreamingData { time, ..StreamingData::from(data) })
                } else {
                    None
                };
                Some(
                    Reaction {
                        ss: next,
                        reply: Reply::Nothing,
                        sample,
                        up: streaming,
                        ended: !next.is_driving(),
                    },
                )
            },
            None => None,
        },
        Event::ChargeTick => match maybe_update_charge(ss) {
            Some((_, state)) => {
                let (charge_state, next) = get_updated_charge_state(
                    data,
                    ss,
                    &state,
                    now,
                    timestamp,
                );
                data.charge_state = charge_state;
                Some(
                    Reaction {
                        ss: next,
                        reply: Reply::Nothing,
                        sample: None,
                        up: streaming,
                        ended: false,
                    },
                )
            },
            None => None,
        },
        Event::Sleep => match maybe_sleep(ss) {
            Some(_) => Some(
                Reaction {
                    ss: SimulationState::sleeping(),
                    reply: Reply::Nothing,
                    sample: None,
                    up: streaming,
                    ended: false,
                },
            ),
            None => None,
        },
        Event::Wake => match maybe_wake_up(ss) {
            Some(_) => Some(
                Reaction {
                    ss: SimulationState::idle(now),
                    reply: Reply::Nothing,
                    sample: None,
                    up: streaming,
                    ended: false,
                },
            ),
            None => None,
        },
        Event::Command(command) => Some(answer(data, ss, streaming, command, now)),
        Event::Closed => None,
    }
}

/// Brings the data in line with a change of the kind of state: the data
/// shows whether the vehicle is online, a vehicle that has stopped driving
/// has no speed, gear or power, and one that has stopped charging has no
/// cable and no current.
fn leave(data: &mut VehicleDataState, old_kind: SimulationStateEnum, new_kind: SimulationStateEnum)
    ensures
        same_vehicle(*final(data), *old(data)),
        final(data).elevation == old(data).elevation,
        final(data).state@ == online_state(new_kind)@,
        final(data).drive_state == (if old_kind == SimulationStateEnum::Driving && new_kind
            != old_kind {
            DriveState { speed: None, shift_state: None, power: None, ..old(data).drive_state }
        } else {
            old(data).drive_state
        }),
        final(data).charge_state == (if old_kind == SimulationStateEnum::Charging && new_kind
            != old_kind {
            ChargeState {
                charging_state: ChargingStateEnum::Disconnected,
                charge_amps: 0,
                ..old(data).charge_state
            }
        } else {
            old(data).charge_state
        }),
{
    data.state = VehicleStateEnum::from(new_kind);
    if !same_kind(old_kind, new_kind) {
        match old_kind {
            SimulationStateEnum::Driving => {
                data.drive_state.speed = None;
                data.drive_state.shift_state = None;
                data.drive_state.power = None;
            },
            SimulationStateEnum::Charging => {
                data.charge_state.charging_state = ChargingStateEnum::Disconnected;
                data.charge_state.charge_amps = 0;
            },
            _ => {},
        }
    }
}

fn same_kind(a: SimulationStateEnum, b: SimulationStateEnum) -> (r: bool)
    ensures
        r == (a == b),
{
    match (a, b) {
        (SimulationStateEnum::Driving, SimulationStateEnum::Driving) => true,
        (SimulationStateEnum::Charging, SimulationStateEnum::Charging) => true,
        (SimulationStateEnum::Idle, SimulationStateEnum::Idle) => true,
        (SimulationStateEnum::IdleNoSleep, SimulationStateEnum::IdleNoSleep) => true,
        (SimulationStateEnum::Sleeping, SimulationStateEnum::Sleeping) => true,
        _ => false,
    }
}

} // verus!
