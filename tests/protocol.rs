use launchpad::database::models::{ImageMapping, InputMapping};
use launchpad::database::operations::Operations;
use launchpad::database::sqlite::SqLite;
use launchpad::display_zones::DisplayZones;
use launchpad::framing::{frame_message, header_length, length_header, validate_message_length, MAX_MESSAGE_LENGTH};
use launchpad::inputs::InputActions::{Knob, Unknown};
use launchpad::inputs::{InputActions, KnobActions};
use launchpad::keys::Keystroke;
use launchpad::protos::{
    Action, Command, DisplayZone, InputActionWrapper, InputId, Key, KeyAction, KeyConfig,
    KeyError, KeyWrapper, TopLevel,
};
use launchpad::client::{create_command, KeyConfigActionBuilder};
use launchpad::socket::commands::{ErrorKind, IncomingCommands};
use launchpad::socket::connection::persist_command;

fn create_proto_fixture(proto_input_id: InputId, proto_key: Key) -> KeyConfig {
    KeyConfig {
        input_id: proto_input_id,
        actions: vec![Action { key_action: Some(KeyAction::new(proto_key)) }],
    }
}

fn store() -> Operations {
    Operations::new(SqLite::new(false).unwrap())
}

#[test]
fn parse_key_action_properly() {
    let proto = KeyAction::new(Key::KEY_ADD);
    assert_eq!(KeyWrapper::try_from(proto).unwrap(), KeyWrapper(Keystroke::Add));
}

#[test]
fn currently_unsupported_keys_give_error() {
    let proto = KeyAction::new(Key::from_value(54));
    assert_eq!(KeyWrapper::try_from(proto).err().unwrap(), KeyError::UnsupportedKey(54));
}

#[test]
fn converts_input_id_to_action() {
    let proto = InputId::KNOB_1_PRESSED;
    assert_eq!(InputActionWrapper::from(proto), InputActionWrapper(Knob(KnobActions::Knob1Pressed)));
}

#[test]
fn handles_unknown_input_action() {
    let proto = InputId::INPUT_ACTION_UNSPECIFIED;
    assert_eq!(InputActionWrapper::from(proto), InputActionWrapper(Unknown))
}

#[test]
fn converts_mapping_into_model() {
    let proto = create_proto_fixture(InputId::KNOB_1_CLOCKWISE, Key::KEY_ADD);
    assert_eq!(
        InputMapping::from_key_config(proto).unwrap(),
        InputMapping::new(InputActions::Knob(KnobActions::Knob1Clockwise), vec![Keystroke::Add])
    )
}

#[test]
fn converts_mapping_into_model_with_invalid_input() {
    let proto = create_proto_fixture(InputId::INPUT_ACTION_UNSPECIFIED, Key::KEY_ADD);
    assert_eq!(InputMapping::from_key_config(proto).unwrap(), InputMapping::new(Unknown, vec![Keystroke::Add]))
}

#[test]
fn unicode_and_other_keys_convert() {
    let unicode = KeyAction { key: Key::KEY_UNICODE, unicode: Some(0x41), other_key_code: None };
    assert_eq!(KeyWrapper::try_from(unicode), Ok(KeyWrapper(Keystroke::Unicode('A'))));
    let surrogate = KeyAction { key: Key::KEY_UNICODE, unicode: Some(0xD800), other_key_code: None };
    assert_eq!(KeyWrapper::try_from(surrogate), Err(KeyError::InvalidUnicode(0xD800)));
    let missing = KeyAction { key: Key::KEY_UNICODE, unicode: None, other_key_code: None };
    assert_eq!(KeyWrapper::try_from(missing), Err(KeyError::UnicodeMissing));
    let other = KeyAction { key: Key::KEY_OTHER, unicode: None, other_key_code: Some(77) };
    assert_eq!(KeyWrapper::try_from(other), Ok(KeyWrapper(Keystroke::Other(77))));
    let no_code = KeyAction { key: Key::KEY_OTHER, unicode: None, other_key_code: None };
    assert_eq!(KeyWrapper::try_from(no_code), Err(KeyError::OtherKeyCodeMissing));
}

#[test]
fn key_config_command_is_stored_and_returned() {
    let mut ops = store();
    let builder = KeyConfigActionBuilder::new().add_key_action(Key::KEY_ADD);
    let kc = KeyConfig { input_id: InputId::KNOB_1_CLOCKWISE, actions: builder.actions().clone() };
    let result = persist_command(&mut ops, create_command(Command::KeyConfigCommand(kc))).unwrap();
    match result {
        IncomingCommands::SetKeyConfig(mapping) => {
            assert_eq!(mapping.get(Knob(KnobActions::Knob1Clockwise)), Some(vec![Keystroke::Add]));
        },
        _ => panic!("expected a key configuration"),
    }
    let rows = ops.get_all_input_mappings().unwrap();
    assert_eq!(rows, vec![InputMapping::new(Knob(KnobActions::Knob1Clockwise), vec![Keystroke::Add])]);
}

#[test]
fn missing_command_is_reported() {
    let mut ops = store();
    let err = persist_command(&mut ops, TopLevel { command: None }).err().unwrap();
    assert_eq!(err.kind, ErrorKind::Other);
    assert_eq!(err.message, "no command found");
}

#[test]
fn invalid_key_config_is_reported() {
    let mut ops = store();
    let kc = create_proto_fixture(InputId::UNRECOGNISED(999), Key::KEY_ADD);
    let err = persist_command(&mut ops, create_command(Command::KeyConfigCommand(kc))).err().unwrap();
    assert_eq!(err.kind, ErrorKind::InvalidData);
    assert_eq!(err.message, "Failed to convert command");
    let kc = create_proto_fixture(InputId::BUTTON_1_PRESSED, Key::UNSUPPORTED(54));
    let err = persist_command(&mut ops, create_command(Command::KeyConfigCommand(kc))).err().unwrap();
    assert_eq!(err.message, "Failed to convert command");
    assert!(ops.get_all_input_mappings().unwrap().is_empty());
}

#[test]
fn brightness_command_is_checked_and_stored() {
    let mut ops = store();
    let r = persist_command(&mut ops, create_command(Command::SetBrightnessCommand(100))).unwrap();
    assert!(matches!(r, IncomingCommands::SetBrightness(100)));
    assert_eq!(ops.get_stored_brightness().unwrap(), Some(100));
    let err = persist_command(&mut ops, create_command(Command::SetBrightnessCommand(101))).err().unwrap();
    assert_eq!(err.kind, ErrorKind::InvalidInput);
    assert_eq!(err.message, "Brightness value was not in the range 0 to 100!");
    assert_eq!(ops.get_stored_brightness().unwrap(), Some(100));
    let r = persist_command(&mut ops, create_command(Command::SetBrightnessCommand(0))).unwrap();
    assert!(matches!(r, IncomingCommands::SetBrightness(0)));
    assert_eq!(ops.get_stored_brightness().unwrap(), Some(0));
}

#[test]
fn image_commands_change_the_store() {
    let mut ops = store();
    let r = persist_command(
        &mut ops,
        create_command(Command::SetDisplayZoneImageCommand(DisplayZone::TOUCHSCREEN_3, String::from("/a.jpg"))),
    )
    .unwrap();
    assert!(matches!(r, IncomingCommands::SetDisplayZoneImage(ref m) if m.display_zone == DisplayZones::Touchscreen3));
    assert_eq!(ops.get_all_image_mappings().unwrap(), vec![ImageMapping {
        display_zone: DisplayZones::Touchscreen3,
        image_path: String::from("/a.jpg"),
    }]);
    let err = persist_command(
        &mut ops,
        create_command(Command::SetDisplayZoneImageCommand(DisplayZone::DISPLAY_ZONE_UNSPECIFIED, String::from("/b.jpg"))),
    )
    .err()
    .unwrap();
    assert_eq!(err.message, "Unsupported command type");
    let r = persist_command(&mut ops, create_command(Command::ClearAllDisplayZoneImagesCommand(false))).unwrap();
    assert!(matches!(r, IncomingCommands::ClearAllDisplayZoneImages));
    assert_eq!(ops.get_all_image_mappings().unwrap().len(), 1);
    let r = persist_command(&mut ops, create_command(Command::ClearDisplayZoneImageCommand(DisplayZone::TOUCHSCREEN_3))).unwrap();
    assert!(matches!(r, IncomingCommands::ClearDisplayZoneImage(DisplayZones::Touchscreen3)));
    assert_eq!(ops.get_all_image_mappings().unwrap().len(), 0);
    persist_command(
        &mut ops,
        create_command(Command::SetDisplayZoneImageCommand(DisplayZone::BUTTON_2, String::from("/c.jpg"))),
    )
    .unwrap();
    persist_command(&mut ops, create_command(Command::ClearAllDisplayZoneImagesCommand(true))).unwrap();
    assert_eq!(ops.get_all_image_mappings().unwrap().len(), 0);
}

#[test]
fn boot_logo_is_passed_on() {
    let mut ops = store();
    let r = persist_command(&mut ops, create_command(Command::SetBootLogoCommand(String::from("/logo.jpg")))).unwrap();
    assert!(matches!(r, IncomingCommands::SetBootLogo(ref p) if p == "/logo.jpg"));
}

#[test]
fn frame_length_limit_is_ten_mebibytes() {
    assert_eq!(MAX_MESSAGE_LENGTH, 10 * 1024 * 1024);
    assert!(validate_message_length(10 * 1024 * 1024).is_ok());
    let err = validate_message_length(10 * 1024 * 1024 + 1).err().unwrap();
    assert_eq!(err.kind, ErrorKind::InvalidData);
    assert!(validate_message_length(0).is_ok());
    assert!(validate_message_length(u64::MAX).is_err());
}

#[test]
fn frame_header_is_little_endian() {
    assert_eq!(length_header(0x0102030405060708), [8, 7, 6, 5, 4, 3, 2, 1]);
    assert_eq!(header_length([8, 7, 6, 5, 4, 3, 2, 1]), 0x0102030405060708);
    assert_eq!(header_length(length_header(u64::MAX)), u64::MAX);
    let frame = frame_message(b"hi");
    assert_eq!(frame, vec![2, 0, 0, 0, 0, 0, 0, 0, b'h', b'i']);
}

#[test]
fn binding_for_unknown_event_is_refused() {
    let mut ops = store();
    let kc = create_proto_fixture(InputId::INPUT_ACTION_UNSPECIFIED, Key::KEY_ADD);
    let err = persist_command(&mut ops, create_command(Command::KeyConfigCommand(kc))).err().unwrap();
    assert_eq!(err.kind, ErrorKind::InvalidData);
    assert_eq!(err.message, "Failed to convert command");
    assert!(ops.get_all_input_mappings().unwrap().is_empty());
}

#[test]
fn wire_numbers_round_trip() {
    for v in -2..80 {
        assert_eq!(InputId::from_value(v).value(), v);
        assert_eq!(DisplayZone::from_value(v).value(), v);
        assert_eq!(Key::from_value(v).value(), v);
    }
    assert_eq!(InputId::from_value(0), InputId::INPUT_ACTION_UNSPECIFIED);
    assert_eq!(InputId::from_value(1), InputId::BUTTON_1_PRESSED);
    assert_eq!(InputId::from_value(39), InputId::UNRECOGNISED(39));
    assert_eq!(DisplayZone::from_value(14), DisplayZone::TOUCHSCREEN_4);
    assert_eq!(Key::from_value(1), Key::KEY_ADD);
    assert_eq!(Key::from_value(0), Key::UNSUPPORTED(0));
    assert_eq!(Key::from_value(54), Key::UNSUPPORTED(54));
    assert_eq!(Key::from_value(111), Key::KEY_UNICODE);
    assert_eq!(Key::from_value(112), Key::KEY_OTHER);
    assert_eq!(Key::KEY_VOLUME_UP.value(), 108);
}

#[test]
fn store_failures_are_reported() {
    let mut db = SqLite::new(false).unwrap();
    db.close();
    let mut ops = Operations::new(db);
    for command in [
        Command::SetBrightnessCommand(50),
        Command::ClearAllDisplayZoneImagesCommand(true),
        Command::ClearDisplayZoneImageCommand(DisplayZone::BUTTON_1),
    ] {
        let err = persist_command(&mut ops, create_command(command)).err().unwrap();
        assert_eq!(err.kind, ErrorKind::Other);
        assert_eq!(err.message, "Database operation failed");
    }
    let r = persist_command(&mut ops, create_command(Command::ClearAllDisplayZoneImagesCommand(false))).unwrap();
    assert!(matches!(r, IncomingCommands::ClearAllDisplayZoneImages));
}
