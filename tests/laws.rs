use launchpad::control::{StateMachine, States};
use launchpad::database::models::InputMapping as StoredMapping;
use launchpad::device::{Device, HidDeviceOperations, InputHandler, TransportError};
use launchpad::display_zones::DisplayZones;
use launchpad::input_handler::{InputMapping, KeyActionExecutor, LaunchpadInputHandler};
use launchpad::inputs::{ButtonActions, InputActions, KnobActions};
use launchpad::keys::Keystroke;
use std::cell::RefCell;

struct Recorder {
    writes: RefCell<Vec<Vec<u8>>>,
    report: [u8; 13],
}

impl HidDeviceOperations for Recorder {
    fn read(&self, buffer: &mut [u8]) -> Result<usize, TransportError> {
        buffer.copy_from_slice(&self.report);
        Ok(13)
    }

    fn write(&self, data: &[u8]) -> Result<usize, TransportError> {
        self.writes.borrow_mut().push(data.to_vec());
        Ok(data.len())
    }
}

struct Clicks {
    seen: RefCell<Vec<Vec<Keystroke>>>,
}

impl KeyActionExecutor for &Clicks {
    fn execute(&self, actions: &[Keystroke]) -> Result<(), String> {
        self.seen.borrow_mut().push(actions.to_vec());
        Ok(())
    }
}

struct Events {
    seen: RefCell<Vec<InputActions>>,
}

impl InputHandler for &Events {
    fn handle(&self, action: InputActions) {
        self.seen.borrow_mut().push(action);
    }
}

fn recorder(report: [u8; 13]) -> Recorder {
    Recorder { writes: RefCell::new(vec![]), report }
}

fn table(pairs: &[(InputActions, Vec<Keystroke>)]) -> InputMapping {
    InputMapping::from_mappings(pairs.iter().map(|(i, k)| StoredMapping::new(*i, k.clone())).collect())
}

#[test]
fn device_brightness_byte_is_clamped() {
    let events = Events { seen: RefCell::new(vec![]) };
    let device = Device::new(recorder([0; 13]), &events);
    device.set_brightness(30).unwrap();
    device.set_brightness(100).unwrap();
    device.set_brightness(101).unwrap();
    device.set_brightness(255).unwrap();
    let writes = device.hid_device.writes.borrow();
    assert_eq!(writes.len(), 4);
    assert!(writes.iter().all(|w| w.len() == 513));
    assert_eq!(writes[0][11], 30);
    assert_eq!(writes[1][11], 100);
    assert_eq!(writes[2][11], 0);
    assert_eq!(writes[3][11], 0);
}

#[test]
fn device_uploads_image_in_padded_packets() {
    let events = Events { seen: RefCell::new(vec![]) };
    let device = Device::new(recorder([0; 13]), &events);
    let image: Vec<u8> = (0..2050u32).map(|i| (i % 250) as u8 + 1).collect();
    device.set_display_zone_image(DisplayZones::Button6, &image).unwrap();
    let writes = device.hid_device.writes.borrow();
    assert_eq!(writes.len(), 4);
    assert_eq!(&writes[0][9..14], &[0, 0, 0x08, 0x02, 6]);
    assert_eq!(&writes[1][1..], &image[0..1024]);
    assert_eq!(&writes[2][1..], &image[1024..2048]);
    assert_eq!(&writes[3][1..3], &image[2048..2050]);
    assert!(writes[3][3..].iter().all(|&b| b == 0));
}

#[test]
fn device_hands_events_to_the_handler() {
    let events = Events { seen: RefCell::new(vec![]) };
    let quiet = Device::new(recorder([0; 13]), &events);
    quiet.read_input().unwrap();
    assert!(events.seen.borrow().is_empty());
    let report = *b"ACK\0\0OK\0\0\x37\x01\0\0";
    let busy = Device::new(recorder(report), &events);
    busy.read_input().unwrap();
    assert_eq!(*events.seen.borrow(), vec![InputActions::Knob(KnobActions::Knob1Pressed)]);
}

#[test]
fn override_is_idempotent() {
    let base = table(&[(InputActions::Button(ButtonActions::Button1Pressed), vec![Keystroke::Tab])]);
    let other = || table(&[
        (InputActions::Button(ButtonActions::Button1Pressed), vec![Keystroke::Space]),
        (InputActions::Knob(KnobActions::Knob2Pressed), vec![Keystroke::F5]),
    ]);
    let mut once = table(&[(InputActions::Button(ButtonActions::Button1Pressed), vec![Keystroke::Tab])]);
    once.override_config(other());
    let mut twice = base;
    twice.override_config(other());
    twice.override_config(other());
    for input in [
        InputActions::Button(ButtonActions::Button1Pressed),
        InputActions::Knob(KnobActions::Knob2Pressed),
        InputActions::Button(ButtonActions::Button2Pressed),
    ] {
        assert_eq!(once.get(input), twice.get(input));
    }
    assert_eq!(once.get(InputActions::Button(ButtonActions::Button1Pressed)), Some(vec![Keystroke::Space]));
}

#[test]
fn binding_replacement_keeps_other_entries() {
    let mut seed = table(&[
        (InputActions::Button(ButtonActions::Button4Pressed), vec![Keystroke::Option]),
        (InputActions::Button(ButtonActions::Button1Pressed), vec![Keystroke::Backspace]),
    ]);
    seed.override_config(table(&[(
        InputActions::Button(ButtonActions::Button4Pressed),
        vec![Keystroke::Add, Keystroke::Backspace],
    )]));
    assert_eq!(seed.get(InputActions::Button(ButtonActions::Button1Pressed)), Some(vec![Keystroke::Backspace]));
    assert_eq!(
        seed.get(InputActions::Button(ButtonActions::Button4Pressed)),
        Some(vec![Keystroke::Add, Keystroke::Backspace])
    );
    assert_eq!(seed.get(InputActions::Button(ButtonActions::Button2Pressed)), None);
}

#[test]
fn later_rows_win_when_building_a_table() {
    let t = table(&[
        (InputActions::Button(ButtonActions::Button3Pressed), vec![Keystroke::F1]),
        (InputActions::Button(ButtonActions::Button3Pressed), vec![Keystroke::F2]),
    ]);
    assert_eq!(t.get(InputActions::Button(ButtonActions::Button3Pressed)), Some(vec![Keystroke::F2]));
}

#[test]
fn default_table_binds_first_button_to_volume_down() {
    let t = InputMapping::default();
    assert_eq!(t.get(InputActions::Button(ButtonActions::Button1Pressed)), Some(vec![Keystroke::VolumeDown]));
    assert_eq!(t.get(InputActions::Button(ButtonActions::Button1Released)), None);
}

#[test]
fn handler_clicks_bound_keys_only() {
    let clicks = Clicks { seen: RefCell::new(vec![]) };
    let mut bindings = InputMapping::default();
    bindings.override_config(table(&[(InputActions::Knob(KnobActions::Knob1Clockwise), vec![Keystroke::Add])]));
    let handler = LaunchpadInputHandler::new(bindings, &clicks);
    handler.handle(InputActions::Knob(KnobActions::Knob1Clockwise));
    handler.handle(InputActions::Unknown);
    handler.handle(InputActions::Knob(KnobActions::Knob4Pressed));
    assert_eq!(*clicks.seen.borrow(), vec![vec![Keystroke::Add]]);
    assert_eq!(handler.bound_keys(InputActions::Unknown), None);
    let updated = handler.new_updated_mappings(table(&[(InputActions::Knob(KnobActions::Knob1Clockwise), vec![Keystroke::Tab])]));
    assert_eq!(updated.get(InputActions::Knob(KnobActions::Knob1Clockwise)), Some(vec![Keystroke::Tab]));
    assert_eq!(updated.get(InputActions::Button(ButtonActions::Button1Pressed)), Some(vec![Keystroke::VolumeDown]));
}

#[test]
fn state_machine_follows_the_table() {
    let expect = |from: States, clients: u8, ok: bool, to: States| {
        let mut m = StateMachine { current_state: from };
        m.next_state(clients, ok);
        assert_eq!(m.current_state(), to);
    };
    for clients in [0u8, 1, 255] {
        for ok in [false, true] {
            expect(States::InitialiseDevice, clients, ok, States::PruneConnections);
            expect(States::PruneConnections, clients, ok, States::HandleDeviceInput);
            expect(States::ReadClientMessages, clients, ok, States::PruneConnections);
        }
    }
    expect(States::HandleDeviceInput, 3, false, States::InitialiseDevice);
    expect(States::HandleDeviceInput, 0, false, States::InitialiseDevice);
    expect(States::HandleDeviceInput, 2, true, States::ReadClientMessages);
    expect(States::HandleDeviceInput, 0, true, States::EstablishConnection);
    expect(States::EstablishConnection, 1, true, States::ReadClientMessages);
    expect(States::EstablishConnection, 0, false, States::HandleDeviceInput);
    assert_eq!(StateMachine::new().current_state(), States::InitialiseDevice);
}

struct Failing;

impl HidDeviceOperations for Failing {
    fn read(&self, _buffer: &mut [u8]) -> Result<usize, TransportError> {
        Err(TransportError::Disconnected)
    }

    fn write(&self, _data: &[u8]) -> Result<usize, TransportError> {
        Err(TransportError::Other(String::from("gone")))
    }
}

#[test]
fn device_hands_transport_errors_back() {
    let events = Events { seen: RefCell::new(vec![]) };
    let device = Device::new(Failing, &events);
    assert_eq!(device.read_input(), Err(TransportError::Disconnected));
    assert!(events.seen.borrow().is_empty());
    assert_eq!(device.set_display_zone_image(DisplayZones::Button1, &[1, 2, 3]), Err(TransportError::Other(String::from("gone"))));
}

#[test]
fn empty_image_upload_returns_zero() {
    let events = Events { seen: RefCell::new(vec![]) };
    let device = Device::new(recorder([0; 13]), &events);
    assert_eq!(device.set_background_image(&[]), Ok(0));
    assert_eq!(device.hid_device.writes.borrow().len(), 1);
}

#[test]
fn table_keeps_one_entry_per_event() {
    let mut t = InputMapping::default();
    for k in [Keystroke::F1, Keystroke::F2, Keystroke::F3] {
        t.override_config(table(&[(InputActions::Button(ButtonActions::Button1Pressed), vec![k])]));
    }
    assert_eq!(t.entries.len(), 1);
    assert_eq!(t.get(InputActions::Button(ButtonActions::Button1Pressed)), Some(vec![Keystroke::F3]));
}
