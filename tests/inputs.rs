use launchpad::device::report_event;
use launchpad::display_zones::DisplayZones;
use launchpad::inputs::{ButtonActions, InputActions, KnobActions, TouchscreenAction, BUFFER_SIZE_13};
use launchpad::inputs::InputActions::{Button, Knob, Touchscreen};

fn report(code: u8, edge: u8) -> [u8; 13] {
    let mut r = *b"ACK\0\0OK\0\0\0\0\0\0";
    r[9] = code;
    r[10] = edge;
    r
}

#[test]
fn test_button_pressed_actions() {
    let expected = [
        ButtonActions::Button1Pressed, ButtonActions::Button2Pressed, ButtonActions::Button3Pressed,
        ButtonActions::Button4Pressed, ButtonActions::Button5Pressed, ButtonActions::Button6Pressed,
        ButtonActions::Button7Pressed, ButtonActions::Button8Pressed, ButtonActions::Button9Pressed,
        ButtonActions::Button10Pressed,
    ];
    for (i, b) in expected.iter().enumerate() {
        assert!(matches!(InputActions::from(report(i as u8 + 1, 1)), Button(x) if x == *b));
    }
}

#[test]
fn test_button_released_actions() {
    let expected = [
        ButtonActions::Button1Released, ButtonActions::Button2Released, ButtonActions::Button3Released,
        ButtonActions::Button4Released, ButtonActions::Button5Released, ButtonActions::Button6Released,
        ButtonActions::Button7Released, ButtonActions::Button8Released, ButtonActions::Button9Released,
        ButtonActions::Button10Released,
    ];
    for (i, b) in expected.iter().enumerate() {
        assert!(matches!(InputActions::from(report(i as u8 + 1, 0)), Button(x) if x == *b));
    }
}

#[test]
fn test_touchscreen_pressed_actions() {
    assert!(matches!(InputActions::from(report(0x40, 0)), Touchscreen(TouchscreenAction::Zone1Pressed)));
    assert!(matches!(InputActions::from(report(0x41, 0)), Touchscreen(TouchscreenAction::Zone2Pressed)));
    assert!(matches!(InputActions::from(report(0x42, 0)), Touchscreen(TouchscreenAction::Zone3Pressed)));
    assert!(matches!(InputActions::from(report(0x43, 0)), Touchscreen(TouchscreenAction::Zone4Pressed)));
}

#[test]
fn test_touchscreen_swipe_actions() {
    assert!(matches!(InputActions::from(report(0x39, 0)), Touchscreen(TouchscreenAction::SwipedLeft)));
    assert!(matches!(InputActions::from(report(0x38, 0)), Touchscreen(TouchscreenAction::SwipedRight)));
}

#[test]
fn test_knob_clockwise_actions() {
    assert!(matches!(InputActions::from(report(0xA1, 0)), Knob(KnobActions::Knob1Clockwise)));
    assert!(matches!(InputActions::from(report(0x51, 0)), Knob(KnobActions::Knob2Clockwise)));
    assert!(matches!(InputActions::from(report(0x91, 0)), Knob(KnobActions::Knob3Clockwise)));
    assert!(matches!(InputActions::from(report(0x71, 0)), Knob(KnobActions::Knob4Clockwise)));
}

#[test]
fn test_knob_counter_clockwise_actions() {
    assert!(matches!(InputActions::from(report(0xA0, 0)), Knob(KnobActions::Knob1CounterClockwise)));
    assert!(matches!(InputActions::from(report(0x50, 0)), Knob(KnobActions::Knob2CounterClockwise)));
    assert!(matches!(InputActions::from(report(0x90, 0)), Knob(KnobActions::Knob3CounterClockwise)));
    assert!(matches!(InputActions::from(report(0x70, 0)), Knob(KnobActions::Knob4CounterClockwise)));
}

#[test]
fn test_knob_pressed_actions() {
    assert!(matches!(InputActions::from(report(0x37, 1)), Knob(KnobActions::Knob1Pressed)));
    assert!(matches!(InputActions::from(report(0x35, 1)), Knob(KnobActions::Knob2Pressed)));
    assert!(matches!(InputActions::from(report(0x33, 1)), Knob(KnobActions::Knob3Pressed)));
    assert!(matches!(InputActions::from(report(0x36, 1)), Knob(KnobActions::Knob4Pressed)));
}

#[test]
fn test_unknown_action() {
    let unknown_bytes = [0xFF; BUFFER_SIZE_13];
    assert!(matches!(InputActions::from(unknown_bytes), InputActions::Unknown));

    let zero_bytes = [0x00; BUFFER_SIZE_13];
    assert!(matches!(InputActions::from(zero_bytes), InputActions::Unknown));
}

#[test]
fn near_miss_reports_are_unknown() {
    let mut r = report(0x01, 1);
    r[12] = 1;
    assert_eq!(InputActions::from(r), InputActions::Unknown);
    assert_eq!(InputActions::from(report(0x01, 2)), InputActions::Unknown);
    assert_eq!(InputActions::from(report(0x0B, 1)), InputActions::Unknown);
    let mut r = report(0x37, 1);
    r[0] = b'B';
    assert_eq!(InputActions::from(r), InputActions::Unknown);
}

#[test]
fn all_zero_report_is_no_event() {
    assert_eq!(report_event([0; 13]), None);
    assert_eq!(report_event(report(0x05, 1)), Some(Button(ButtonActions::Button5Pressed)));
    assert_eq!(report_event([0xFF; 13]), Some(InputActions::Unknown));
}

#[test]
fn event_identifiers_round_trip() {
    for id in 0u8..=255 {
        let event = InputActions::from_id(id);
        if event != InputActions::Unknown {
            assert_eq!(event.to_id(), id);
        }
    }
    assert_eq!(InputActions::from_id(8), Button(ButtonActions::Button8Pressed));
    assert_eq!(Button(ButtonActions::Button8Pressed).to_id(), 8);
    assert_eq!(InputActions::Unknown.to_id(), 0);
}

#[test]
fn display_zone_ids_are_a_bijection() {
    let zones = [
        DisplayZones::Button1, DisplayZones::Button2, DisplayZones::Button3, DisplayZones::Button4,
        DisplayZones::Button5, DisplayZones::Button6, DisplayZones::Button7, DisplayZones::Button8,
        DisplayZones::Button9, DisplayZones::Button10, DisplayZones::Touchscreen1,
        DisplayZones::Touchscreen2, DisplayZones::Touchscreen3, DisplayZones::Touchscreen4,
    ];
    let ids: Vec<u8> = zones.iter().map(|z| z.to_wire()).collect();
    assert_eq!(ids, vec![11, 12, 13, 14, 15, 6, 7, 8, 9, 10, 1, 2, 3, 4]);
    for z in zones.iter() {
        assert_eq!(DisplayZones::try_from(z.to_wire()), Ok(*z));
    }
    assert!(DisplayZones::try_from(0).is_err());
    assert!(DisplayZones::try_from(5).is_err());
    assert!(DisplayZones::try_from(16).is_err());
}
