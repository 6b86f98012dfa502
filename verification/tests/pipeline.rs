use ble_temp::codec::{Sample, Unit};
use ble_temp::gatt::{find_characteristic, uuid_from_u16, TEMPERATURE_MEASUREMENT};
use ble_temp::pipeline::{start, step, Action, BleError, Event, State, SCAN_DWELL_MILLIS};

const TEMP_UUID: u128 = 0x00002A1C_0000_1000_8000_00805F9B34FB;

fn names(list: &[Option<&str>]) -> Vec<Option<String>> {
    list.iter().map(|n| n.map(|s| s.to_string())).collect()
}

/// Drive a fresh machine up to the streaming state.
fn drive_to_streaming() -> State {
    let (s, a) = start();
    assert_eq!(s, State::Init);
    assert_eq!(a, Action::EnumerateAdapters);

    let (s, a) = step(s, Event::AdaptersEnumerated { available: true, count: 2 });
    assert_eq!(s, State::AdapterReady { adapter: 0 });
    assert_eq!(a, Action::StartScan { adapter: 0 });

    let (s, a) = step(s, Event::ScanStarted { ok: true });
    assert_eq!(s, State::Scanning { adapter: 0 });
    assert_eq!(a, Action::DwellThenEnumerate { dwell_millis: SCAN_DWELL_MILLIS });
    assert_eq!(SCAN_DWELL_MILLIS, 2000);

    let ns = names(&[Some("Foo"), Some("Temperature Probe")]);
    let (s, a) = step(s, Event::PeripheralsEnumerated { names: ns });
    assert_eq!(s, State::Selected { peripheral: 1 });
    assert_eq!(a, Action::Connect { peripheral: 1 });

    let (s, a) = step(s, Event::ConnectFinished { ok: true });
    assert_eq!(s, State::Connected { peripheral: 1 });
    assert_eq!(a, Action::DiscoverServices);

    let chars = vec![0xABCDu128, TEMP_UUID, TEMP_UUID];
    let (s, a) = step(s, Event::ServicesDiscovered { ok: true, characteristics: chars });
    assert_eq!(s, State::Discovered { peripheral: 1, characteristic: 1 });
    assert_eq!(a, Action::Subscribe { characteristic: 1 });

    let (s, a) = step(s, Event::SubscribeFinished { ok: true });
    assert_eq!(s, State::Subscribed { peripheral: 1, characteristic: 1 });
    assert_eq!(a, Action::AwaitNotification);

    let (s, a) = step(s, Event::NotificationReceived { payload: vec![0x00, 0xD0, 0x5D, 0x00, 0x00] });
    assert_eq!(s, State::Streaming { peripheral: 1, characteristic: 1 });
    assert_eq!(
        a,
        Action::EmitSample { sample: Sample { unit: Unit::Celsius, millis: 24016 } }
    );
    s
}

#[test]
fn temperature_measurement_uuid_expansion() {
    assert_eq!(uuid_from_u16(TEMPERATURE_MEASUREMENT), TEMP_UUID);
    assert_eq!(uuid_from_u16(0x0000), 0x00000000_0000_1000_8000_00805F9B34FB);
    assert_eq!(uuid_from_u16(0xFFFF), 0x0000FFFF_0000_1000_8000_00805F9B34FB);
}

#[test]
fn characteristic_lookup_first_match() {
    let chars = vec![0x1u128, TEMP_UUID, 0x2u128, TEMP_UUID];
    assert_eq!(find_characteristic(&chars, TEMP_UUID), Some(1));
    assert_eq!(find_characteristic(&vec![0x1u128, 0x2u128], TEMP_UUID), None);
    assert_eq!(find_characteristic(&Vec::new(), TEMP_UUID), None);
}

#[test]
fn adapter_selection() {
    // At least one adapter: index 0 is taken.
    let (s, a) = step(State::Init, Event::AdaptersEnumerated { available: true, count: 1 });
    assert_eq!(s, State::AdapterReady { adapter: 0 });
    assert_eq!(a, Action::StartScan { adapter: 0 });
    // No adapter: NoAdapter.
    let (s, a) = step(State::Init, Event::AdaptersEnumerated { available: true, count: 0 });
    assert_eq!(s, State::Terminated { error: Some(BleError::NoAdapter) });
    assert_eq!(a, Action::Stop);
}

#[test]
fn error_no_ble_stack() {
    let (s, a) = step(State::Init, Event::AdaptersEnumerated { available: false, count: 0 });
    assert_eq!(s, State::Terminated { error: Some(BleError::NoBleStack) });
    assert_eq!(a, Action::Stop);
}

#[test]
fn error_scan_failed() {
    let (s, a) = step(State::AdapterReady { adapter: 0 }, Event::ScanStarted { ok: false });
    assert_eq!(s, State::Terminated { error: Some(BleError::ScanFailed) });
    assert_eq!(a, Action::Stop);
}

#[test]
fn error_no_sensor() {
    let ns = names(&[Some("Kitchen"), None]);
    let (s, a) = step(State::Scanning { adapter: 0 }, Event::PeripheralsEnumerated { names: ns });
    assert_eq!(s, State::Terminated { error: Some(BleError::NoSensor) });
    assert_eq!(a, Action::Stop);
}

#[test]
fn error_connect_failed() {
    let (s, a) = step(State::Selected { peripheral: 0 }, Event::ConnectFinished { ok: false });
    assert_eq!(s, State::Terminated { error: Some(BleError::ConnectFailed) });
    assert_eq!(a, Action::Stop);
}

#[test]
fn error_discover_failed() {
    let (s, a) = step(
        State::Connected { peripheral: 0 },
        Event::ServicesDiscovered { ok: false, characteristics: Vec::new() },
    );
    assert_eq!(s, State::Terminated { error: Some(BleError::DiscoverFailed) });
    assert_eq!(a, Action::Stop);
}

#[test]
fn error_no_characteristic() {
    let (s, a) = step(
        State::Connected { peripheral: 0 },
        Event::ServicesDiscovered { ok: true, characteristics: vec![0x1u128, 0x2u128] },
    );
    assert_eq!(s, State::Terminated { error: Some(BleError::NoCharacteristic) });
    assert_eq!(a, Action::Stop);
}

#[test]
fn error_subscribe_failed() {
    let (s, a) = step(
        State::Discovered { peripheral: 0, characteristic: 3 },
        Event::SubscribeFinished { ok: false },
    );
    assert_eq!(s, State::Terminated { error: Some(BleError::SubscribeFailed) });
    assert_eq!(a, Action::Stop);
}

#[test]
fn malformed_frames_do_not_emit_or_terminate() {
    let s = drive_to_streaming();
    // Four bytes: dropped, stream continues.
    let (s, a) = step(s, Event::NotificationReceived { payload: vec![0x00, 0xD0, 0x5D, 0x00] });
    assert_eq!(s, State::Streaming { peripheral: 1, characteristic: 1 });
    assert_eq!(a, Action::AwaitNotification);
    // Six bytes: dropped, stream continues.
    let (s, a) = step(
        s,
        Event::NotificationReceived { payload: vec![0x00, 0xD0, 0x5D, 0x00, 0x00, 0x00] },
    );
    assert_eq!(s, State::Streaming { peripheral: 1, characteristic: 1 });
    assert_eq!(a, Action::AwaitNotification);
    // A well-formed frame afterwards still emits.
    let (s, a) = step(s, Event::NotificationReceived { payload: vec![0x01, 0x50, 0xE2, 0x00, 0x00] });
    assert_eq!(s, State::Streaming { peripheral: 1, characteristic: 1 });
    assert_eq!(
        a,
        Action::EmitSample { sample: Sample { unit: Unit::Fahrenheit, millis: 57936 } }
    );
}

#[test]
fn stream_end_terminates_normally() {
    let s = drive_to_streaming();
    let (s, a) = step(s, Event::StreamEnded);
    assert_eq!(s, State::Terminated { error: None });
    assert_eq!(a, Action::Stop);
}
