//! The acquisition pipeline as a verified state machine.
//!
//! The protocol is linear: acquire the BLE manager, take the first adapter,
//! scan, dwell, select the first peripheral advertising `Temperature`,
//! connect, discover services, locate the Temperature Measurement
//! characteristic, subscribe, then drain the notification stream, emitting
//! one sample per well-formed payload. Every step failure terminates the
//! machine with the corresponding error; only the streaming state loops.
//!
//! The unverified driver owns the BLE handles and the clock: in each state
//! it performs the [`Action`] the machine asked for, reports the outcome as
//! an [`Event`] of plain values, and calls [`step`] for the next state and
//! action, until the machine reaches `Terminated`.

use vstd::prelude::*;

use crate::codec::{decode, spec_decode, Sample};
use crate::gatt::{find_characteristic, spec_uuid_from_u16, uuid_from_u16, TEMPERATURE_MEASUREMENT};
use crate::select::{select_peripheral, spec_name_matches};

verus! {

/// Milliseconds the scan is left running before discovered peripherals are
/// enumerated. The dwell is load-bearing: enumeration right after the scan
/// starts comes up empty on some platforms.
pub const SCAN_DWELL_MILLIS: u64 = 2000;

/// Why the pipeline terminated early. A terminated machine with no error
/// means the notification stream ended normally.
#[derive(Clone, Copy, PartialEq, Eq, Structural, Debug)]
pub enum BleError {
    /// The platform BLE subsystem is unavailable.
    NoBleStack,
    /// The subsystem reported no adapter.
    NoAdapter,
    /// The scan could not be started.
    ScanFailed,
    /// No discovered peripheral advertised a matching local name.
    NoSensor,
    /// The transport failed while connecting.
    ConnectFailed,
    /// Service discovery failed.
    DiscoverFailed,
    /// The peripheral lacks the Temperature Measurement characteristic.
    NoCharacteristic,
    /// Subscribing to notifications failed.
    SubscribeFailed,
}

/// The machine's states, forward-only except for the streaming loop.
/// Indices name positions in the driver's enumeration order: `adapter` in
/// the adapter list, `peripheral` in the discovered-peripheral list,
/// `characteristic` in the connected peripheral's characteristic list.
#[derive(Clone, Copy, PartialEq, Eq, Structural, Debug)]
pub enum State {
    /// Nothing done yet; the manager and adapters are being acquired.
    Init,
    /// An adapter is chosen; the scan is being started on it.
    AdapterReady { adapter: usize },
    /// The scan runs; the driver dwells, then enumerates peripherals.
    Scanning { adapter: usize },
    /// A peripheral is chosen; the driver connects to it.
    Selected { peripheral: usize },
    /// Connected; services are being discovered.
    Connected { peripheral: usize },
    /// The Temperature Measurement characteristic is located; the driver
    /// subscribes to it.
    Discovered { peripheral: usize, characteristic: usize },
    /// Subscribed; the first notification is awaited.
    Subscribed { peripheral: usize, characteristic: usize },
    /// Draining the notification stream.
    Streaming { peripheral: usize, characteristic: usize },
    /// The machine stopped: with an error, or normally when `error` is none.
    Terminated { error: Option<BleError> },
}

/// What the driver reports back after performing an action. All payloads
/// are plain values; the driver keeps the BLE handles to itself.
#[derive(Debug)]
pub enum Event {
    /// The manager was acquired (`available`) and listed `count` adapters.
    AdaptersEnumerated { available: bool, count: usize },
    /// The scan was started, or failed to start.
    ScanStarted { ok: bool },
    /// The dwell passed; one entry per discovered peripheral, its advertised
    /// local name if it has one.
    PeripheralsEnumerated { names: Vec<Option<String>> },
    /// The connection attempt finished.
    ConnectFinished { ok: bool },
    /// Service discovery finished; on success, the UUID of every
    /// characteristic of the peripheral, in enumeration order.
    ServicesDiscovered { ok: bool, characteristics: Vec<u128> },
    /// The subscription attempt finished.
    SubscribeFinished { ok: bool },
    /// One notification arrived with this raw payload.
    NotificationReceived { payload: Vec<u8> },
    /// The notification stream ended (disconnect or stack teardown).
    StreamEnded,
}

/// What the machine asks the driver to do next.
#[derive(Clone, Copy, PartialEq, Eq, Structural, Debug)]
pub enum Action {
    /// Acquire the BLE manager and enumerate its adapters.
    EnumerateAdapters,
    /// Start an unfiltered scan on the adapter at this index.
    StartScan { adapter: usize },
    /// Wait `dwell_millis`, then enumerate the discovered peripherals.
    DwellThenEnumerate { dwell_millis: u64 },
    /// Connect to the peripheral at this index.
    Connect { peripheral: usize },
    /// Discover services, then enumerate the characteristics.
    DiscoverServices,
    /// Subscribe to notifications on the characteristic at this index.
    Subscribe { characteristic: usize },
    /// Await the next notification or the end of the stream.
    AwaitNotification,
    /// Emit this sample, pulse the repaint wake signal, then await the next
    /// notification.
    EmitSample { sample: Sample },
    /// The machine is terminated; tear down.
    Stop,
}

/// Which event a state awaits: the machine consumes exactly the outcome of
/// the action it last asked for.
pub open spec fn event_fits(state: State, event: Event) -> bool {
    match (state, event) {
        (State::Init, Event::AdaptersEnumerated { .. }) => true,
        (State::AdapterReady { .. }, Event::ScanStarted { .. }) => true,
        (State::Scanning { .. }, Event::PeripheralsEnumerated { .. }) => true,
        (State::Selected { .. }, Event::ConnectFinished { .. }) => true,
        (State::Connected { .. }, Event::ServicesDiscovered { .. }) => true,
        (State::Discovered { .. }, Event::SubscribeFinished { .. }) => true,
        (State::Subscribed { .. }, Event::NotificationReceived { .. }) => true,
        (State::Subscribed { .. }, Event::StreamEnded) => true,
        (State::Streaming { .. }, Event::NotificationReceived { .. }) => true,
        (State::Streaming { .. }, Event::StreamEnded) => true,
        _ => false,
    }
}

/// The transition relation: exactly which next state and action follow from
/// a state and the event it awaited.
pub open spec fn step_spec(state: State, event: Event, next: State, action: Action) -> bool {
    match (state, event) {
        (State::Init, Event::AdaptersEnumerated { available, count }) => {
            if !available {
                next == (State::Terminated { error: Some(BleError::NoBleStack) })
                    && action == Action::Stop
            } else if count == 0 {
                next == (State::Terminated { error: Some(BleError::NoAdapter) })
                    && action == Action::Stop
            } else {
                next == (State::AdapterReady { adapter: 0 }) && action == (Action::StartScan {
                    adapter: 0,
                })
            }
        },
        (State::AdapterReady { adapter }, Event::ScanStarted { ok }) => {
            if ok {
                next == (State::Scanning { adapter }) && action == (Action::DwellThenEnumerate {
                    dwell_millis: SCAN_DWELL_MILLIS,
                })
            } else {
                next == (State::Terminated { error: Some(BleError::ScanFailed) })
                    && action == Action::Stop
            }
        },
        (State::Scanning { .. }, Event::PeripheralsEnumerated { names }) => {
            match (next, action) {
                (State::Selected { peripheral }, Action::Connect { peripheral: p }) => {
                    &&& p == peripheral
                    &&& peripheral < names@.len()
                    &&& spec_name_matches(names@[peripheral as int])
                    &&& forall|j: int| 0 <= j < peripheral ==> !spec_name_matches(names@[j])
                },
                (State::Terminated { error }, Action::Stop) => {
                    &&& error == Some(BleError::NoSensor)
                    &&& forall|j: int| 0 <= j < names@.len() ==> !spec_name_matches(names@[j])
                },
                _ => false,
            }
        },
        (State::Selected { peripheral }, Event::ConnectFinished { ok }) => {
            if ok {
                next == (State::Connected { peripheral }) && action == Action::DiscoverServices
            } else {
                next == (State::Terminated { error: Some(BleError::ConnectFailed) })
                    && action == Action::Stop
            }
        },
        (State::Connected { peripheral }, Event::ServicesDiscovered { ok, characteristics }) => {
            if !ok {
                next == (State::Terminated { error: Some(BleError::DiscoverFailed) })
                    && action == Action::Stop
            } else {
                match (next, action) {
                    (
                        State::Discovered { peripheral: p, characteristic },
                        Action::Subscribe { characteristic: c },
                    ) => {
                        &&& p == peripheral
                        &&& c == characteristic
                        &&& characteristic < characteristics@.len()
                        &&& characteristics@[characteristic as int] == spec_uuid_from_u16(
                            TEMPERATURE_MEASUREMENT,
                        )
                        &&& forall|j: int|
                            0 <= j < characteristic ==> characteristics@[j] != spec_uuid_from_u16(
                                TEMPERATURE_MEASUREMENT,
                            )
                    },
                    (State::Terminated { error }, Action::Stop) => {
                        &&& error == Some(BleError::NoCharacteristic)
                        &&& forall|j: int|
                            0 <= j < characteristics@.len() ==> characteristics@[j]
                                != spec_uuid_from_u16(TEMPERATURE_MEASUREMENT)
                    },
                    _ => false,
                }
            }
        },
        (State::Discovered { peripheral, characteristic }, Event::SubscribeFinished { ok }) => {
            if ok {
                next == (State::Subscribed { peripheral, characteristic }) && action
                    == Action::AwaitNotification
            } else {
                next == (State::Terminated { error: Some(BleError::SubscribeFailed) })
                    && action == Action::Stop
            }
        },
        (State::Subscribed { peripheral, characteristic }, Event::NotificationReceived { payload }) => {
            next == (State::Streaming { peripheral, characteristic }) && action == (
            match spec_decode(payload@) {
                Some(sample) => Action::EmitSample { sample },
                None => Action::AwaitNotification,
            })
        },
        (State::Streaming { peripheral, characteristic }, Event::NotificationReceived { payload }) => {
            next == (State::Streaming { peripheral, characteristic }) && action == (
            match spec_decode(payload@) {
                Some(sample) => Action::EmitSample { sample },
                None => Action::AwaitNotification,
            })
        },
        (State::Subscribed { .. }, Event::StreamEnded) => {
            next == (State::Terminated { error: None::<BleError> }) && action == Action::Stop
        },
        (State::Streaming { .. }, Event::StreamEnded) => {
            next == (State::Terminated { error: None::<BleError> }) && action == Action::Stop
        },
        _ => false,
    }
}

/// A fresh machine: in `Init`, asking the driver for the adapters.
pub fn start() -> (r: (State, Action))
    ensures
        r.0 == State::Init,
        r.1 == Action::EnumerateAdapters,
{
    (State::Init, Action::EnumerateAdapters)
}

/// One transition: consume the outcome of the last action, return the next
/// state and the next action.
pub fn step(state: State, event: Event) -> (r: (State, Action))
    requires
        event_fits(state, event),
    ensures
        step_spec(state, event, r.0, r.1),
{
    match (state, event) {
        (State::Init, Event::AdaptersEnumerated { available, count }) => {
            if !available {
                (State::Terminated { error: Some(BleError::NoBleStack) }, Action::Stop)
            } else if count == 0 {
                (State::Terminated { error: Some(BleError::NoAdapter) }, Action::Stop)
            } else {
                (State::AdapterReady { adapter: 0 }, Action::StartScan { adapter: 0 })
            }
        },
        (State::AdapterReady { adapter }, Event::ScanStarted { ok }) => {
            if ok {
                (
                    State::Scanning { adapter },
                    Action::DwellThenEnumerate { dwell_millis: SCAN_DWELL_MILLIS },
                )
            } else {
                (State::Terminated { error: Some(BleError::ScanFailed) }, Action::Stop)
            }
        },
        (State::Scanning { adapter: _ }, Event::PeripheralsEnumerated { names }) => {
            match select_peripheral(&names) {
                Some(peripheral) => (
                    State::Selected { peripheral },
                    Action::Connect { peripheral },
                ),
                None => (State::Terminated { error: Some(BleError::NoSensor) }, Action::Stop),
            }
        },
        (State::Selected { peripheral }, Event::ConnectFinished { ok }) => {
            if ok {
                (State::Connected { peripheral }, Action::DiscoverServices)
            } else {
                (State::Terminated { error: Some(BleError::ConnectFailed) }, Action::Stop)
            }
        },
        (State::Connected { peripheral }, Event::ServicesDiscovered { ok, characteristics }) => {
            if !ok {
                (State::Terminated { error: Some(BleError::DiscoverFailed) }, Action::Stop)
            } else {
                let target = uuid_from_u16(TEMPERATURE_MEASUREMENT);
                match find_characteristic(&characteristics, target) {
                    Some(characteristic) => (
                        State::Discovered { peripheral, characteristic },
                        Action::Subscribe { characteristic },
                    ),
                    None => (
                        State::Terminated { error: Some(BleError::NoCharacteristic) },
                        Action::Stop,
                    ),
                }
            }
        },
        (State::Discovered { peripheral, characteristic }, Event::SubscribeFinished { ok }) => {
            if ok {
                (State::Subscribed { peripheral, characteristic }, Action::AwaitNotification)
            } else {
                (State::Terminated { error: Some(BleError::SubscribeFailed) }, Action::Stop)
            }
        },
        (State::Subscribed { peripheral, characteristic }, Event::NotificationReceived { payload }) => {
            match decode(payload.as_slice()) {
                Some(sample) => (
                    State::Streaming { peripheral, characteristic },
                    Action::EmitSample { sample },
                ),
                None => (
                    State::Streaming { peripheral, characteristic },
                    Action::AwaitNotification,
                ),
            }
        },
        (State::Streaming { peripheral, characteristic }, Event::NotificationReceived { payload }) => {
            match decode(payload.as_slice()) {
                Some(sample) => (
                    State::Streaming { peripheral, characteristic },
                    Action::EmitSample { sample },
                ),
                None => (
                    State::Streaming { peripheral, characteristic },
                    Action::AwaitNotification,
                ),
            }
        },
        (State::Subscribed { .. }, Event::StreamEnded) => {
            (State::Terminated { error: None }, Action::Stop)
        },
        (State::Streaming { .. }, Event::StreamEnded) => {
            (State::Terminated { error: None }, Action::Stop)
        },
        _ => vstd::pervasive::unreached(),
    }
}

/// The samples a run of actions emits, in order.
pub open spec fn spec_emissions(acts: Seq<Action>) -> Seq<Sample>
    decreases acts.len(),
{
    if acts.len() == 0 {
        Seq::empty()
    } else {
        let rest = spec_emissions(acts.drop_last());
        match acts.last() {
            Action::EmitSample { sample } => rest.push(sample),
            _ => rest,
        }
    }
}

/// The samples a run of payloads decodes to, malformed ones dropped, in
/// delivery order.
pub open spec fn spec_decodings(payloads: Seq<Seq<u8>>) -> Seq<Sample>
    decreases payloads.len(),
{
    if payloads.len() == 0 {
        Seq::empty()
    } else {
        let rest = spec_decodings(payloads.drop_last());
        match spec_decode(payloads.last()) {
            Some(sample) => rest.push(sample),
            None => rest,
        }
    }
}

/// Streaming discipline: however many notifications a streaming machine is
/// fed, it stays streaming, and what it emits is exactly the decoding of
/// every well-formed payload, in delivery order — malformed frames never
/// reach the sample channel and never end the stream.
pub proof fn lemma_streaming_emits_in_order(
    peripheral: usize,
    characteristic: usize,
    payloads: Seq<Vec<u8>>,
    nexts: Seq<State>,
    acts: Seq<Action>,
)
    requires
        nexts.len() == payloads.len(),
        acts.len() == payloads.len(),
        forall|i: int|
            0 <= i < payloads.len() ==> step_spec(
                if i == 0 {
                    State::Streaming { peripheral, characteristic }
                } else {
                    nexts[i - 1]
                },
                Event::NotificationReceived { payload: payloads[i] },
                nexts[i],
                acts[i],
            ),
    ensures
        forall|i: int|
            0 <= i < nexts.len() ==> nexts[i] == (State::Streaming { peripheral, characteristic }),
        spec_emissions(acts) == spec_decodings(payloads.map_values(|p: Vec<u8>| p@)),
    decreases payloads.len(),
{
    let views = payloads.map_values(|p: Vec<u8>| p@);
    if payloads.len() == 0 {
        assert(spec_emissions(acts) =~= spec_decodings(views));
    } else {
        let n = payloads.len() - 1;
        lemma_streaming_emits_in_order(
            peripheral,
            characteristic,
            payloads.drop_last(),
            nexts.drop_last(),
            acts.drop_last(),
        );
        assert forall|i: int| 0 <= i < n implies nexts[i] == (State::Streaming {
            peripheral,
            characteristic,
        }) by {
            assert(nexts.drop_last()[i] == nexts[i]);
        }
        assert(step_spec(
            if n == 0 {
                State::Streaming { peripheral, characteristic }
            } else {
                nexts[n - 1]
            },
            Event::NotificationReceived { payload: payloads[n] },
            nexts[n],
            acts[n],
        ));
        assert(nexts[n] == (State::Streaming { peripheral, characteristic }));
        assert(views.drop_last() =~= payloads.drop_last().map_values(|p: Vec<u8>| p@));
        assert(views.last() == payloads[n]@);
        assert(spec_emissions(acts) =~= spec_decodings(views));
    }
}

/// Adapter selection: with at least one adapter the machine takes the one
/// at enumeration index 0; with none it fails with `NoAdapter`.
pub proof fn lemma_adapter_selection(count: usize, next: State, action: Action)
    requires
        step_spec(
            State::Init,
            Event::AdaptersEnumerated { available: true, count },
            next,
            action,
        ),
    ensures
        count > 0 ==> next == (State::AdapterReady { adapter: 0 }) && action == (Action::StartScan {
            adapter: 0,
        }),
        count == 0 ==> next == (State::Terminated { error: Some(BleError::NoAdapter) }),
{
}

/// A malformed frame emits nothing and does not end the stream: the machine
/// stays streaming and just awaits the next notification.
pub proof fn lemma_malformed_frame_no_emit(
    peripheral: usize,
    characteristic: usize,
    payload: Vec<u8>,
    next: State,
    action: Action,
)
    requires
        payload@.len() != 5,
        step_spec(
            State::Streaming { peripheral, characteristic },
            Event::NotificationReceived { payload },
            next,
            action,
        ),
    ensures
        next == (State::Streaming { peripheral, characteristic }),
        action == Action::AwaitNotification,
{
}

} // verus!
