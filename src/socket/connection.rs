use vstd::prelude::*;
use crate::database::models::{ImageMapping, InputMapping as StoredMapping};
use crate::database::operations::Operations;
use crate::input_handler::InputMapping;
use crate::inputs::InputActions;
use crate::keys::Keystroke;
use crate::protos::{
    default_key_action, input_of_id, keystroke_of, zone_of, Action, Command, DisplayZoneWrapper,
    InputActionWrapper, InputId, KeyAction, KeyConfig, KeyWrapper, TopLevel,
};
use crate::socket::commands::{ErrorKind, IncomingCommands, MessageError};
use crate::actions_text::actions_text;

verus! {

/// The key action an action carries, or the default one.
pub open spec fn key_action_of(a: Action) -> KeyAction {
    match a.key_action {
        Some(k) => k,
        None => default_key_action(),
    }
}

/// Whether every action of `actions` names a keystroke.
pub open spec fn all_keys_valid(actions: Seq<Action>) -> bool {
    forall|i: int| 0 <= i < actions.len() ==> (#[trigger] keystroke_of(key_action_of(actions[i]))) is Ok
}

/// The keystrokes `actions` name, in order.
pub open spec fn keystrokes_of(actions: Seq<Action>) -> Seq<Keystroke> {
    Seq::new(actions.len(), |i: int| keystroke_of(key_action_of(actions[i]))->Ok_0)
}

/// The binding a key configuration asks for: none when its input
/// identifier is unrecognised or one of its keys names no keystroke.
pub open spec fn binding_of_config(kc: KeyConfig) -> Option<(InputActions, Seq<Keystroke>)> {
    if kc.input_id is UNRECOGNISED || !all_keys_valid(kc.actions@) {
        None
    } else {
        Some((input_of_id(kc.input_id), keystrokes_of(kc.actions@)))
    }
}

/// Whether a key configuration asks for a binding that can be kept: a valid
/// one, for an event other than `Unknown`.
pub open spec fn bindable(kc: KeyConfig) -> bool {
    binding_of_config(kc) matches Some((input, _)) && input != InputActions::Unknown
}

impl StoredMapping {
    /// The binding a client's key configuration asks for.
    pub fn from_key_config(value: KeyConfig) -> (r: Result<StoredMapping, ()>)
        ensures
            binding_of_config(value) is None ==> r is Err,
            binding_of_config(value) matches Some((input, keys)) ==> (r matches Ok(m) && m.input
                == input && m.actions@ == keys),
    {
        if let InputId::UNRECOGNISED(_) = value.input_id {
            return Err(());
        }
        let input_id = InputActionWrapper::from(value.input_id);
        let mut actions: Vec<Keystroke> = Vec::new();
        let mut i: usize = 0;
        while i < value.actions.len()
            invariant
                i <= value.actions@.len(),
                actions@.len() == i,
                forall|j: int| 0 <= j < i ==> (#[trigger] keystroke_of(key_action_of(value.actions@[j]))) is Ok,
                forall|j: int| 0 <= j < i ==> actions@[j] == keystroke_of(key_action_of(value.actions@[j]))->Ok_0,
            decreases value.actions@.len() - i,
        {
            match KeyWrapper::try_from(value.actions[i].key_action()) {
                Ok(k) => actions.push(k.0),
                Err(_) => {
                    assert(keystroke_of(key_action_of(value.actions@[i as int])) is Err);
                    assert(!all_keys_valid(value.actions@));
                    return Err(());
                },
            }
            i = i + 1;
        }
        assert(actions@ =~= keystrokes_of(value.actions@));
        Ok(StoredMapping::new(input_id.0, actions))
    }
}

impl ImageMapping {
    /// The image binding a client asks for; none when the zone is unknown.
    pub fn from_zone_image(display_zone: crate::protos::DisplayZone, image_path: String) -> (r: Option<ImageMapping>)
        ensures
            zone_of(display_zone) is None ==> r is None,
            zone_of(display_zone) matches Some(z) ==> (r matches Some(m) && m.display_zone == z
                && m.image_path@ == image_path@),
    {
        match DisplayZoneWrapper::try_from(display_zone) {
            Some(w) => Some(ImageMapping { display_zone: w.display_zone(), image_path }),
            None => None,
        }
    }
}

/// The error `e` has `kind` and `text`.
pub open spec fn error_is(e: MessageError, kind: ErrorKind, text: Seq<char>) -> bool {
    e.kind == kind && e.message@ == text
}

/// Applies one client command to the store and says what the control loop
/// is to do with it.
///
/// A key configuration for a known event is stored and returned as a
/// binding; an image for a zone is stored and returned; clearing one zone,
/// or every zone when asked to forget them, removes the stored images; a
/// boot logo is passed on unstored; a brightness from 0 to 100 is stored
/// and returned, any other is refused.
/// A failure of the store is reported as "Database operation failed", with
/// the tables left as they were.
pub fn persist_command(operations: &mut Operations, top_level: TopLevel) -> (r: Result<
    IncomingCommands,
    MessageError,
>)
    ensures
        final(operations).database.connection is Some <==> old(operations).database.connection is Some,
        top_level.command is None ==> (r matches Err(e) && error_is(e, ErrorKind::Other, "no command found"@)
            && final(operations).same_tables(old(operations))),
        top_level.command matches Some(Command::KeyConfigCommand(kc)) ==> {
            &&& !bindable(kc) ==> (r matches Err(e) && error_is(
                e,
                ErrorKind::InvalidData,
                "Failed to convert command"@,
            ) && final(operations).same_tables(old(operations)))
            &&& binding_of_config(kc) matches Some((input, keys)) ==> (input != InputActions::Unknown ==> {
                &&& r is Ok ==> (r matches Ok(IncomingCommands::SetKeyConfig(m)) && m.view() == map![input => keys]
                    && final(operations).inputs() == old(operations).inputs().insert(input.spec_id(), actions_text(keys))
                    && final(operations).images() == old(operations).images()
                    && final(operations).config() == old(operations).config())
                &&& r is Err ==> (r matches Err(e) && error_is(e, ErrorKind::Other, "Database operation failed"@)
                    && final(operations).same_tables(old(operations)))
            })
        },
        top_level.command matches Some(Command::SetBootLogoCommand(path)) ==> (r matches Ok(
            IncomingCommands::SetBootLogo(p),
        ) && p@ == path@ && final(operations).same_tables(old(operations))),
        top_level.command matches Some(Command::SetBrightnessCommand(b)) ==> {
            &&& b <= 100 ==> {
                &&& r is Ok ==> (r matches Ok(IncomingCommands::SetBrightness(v)) && v == b
                    && final(operations).inputs() == old(operations).inputs()
                    && final(operations).images() == old(operations).images()
                    && final(operations).config() == old(operations).config().insert(1u8, b as u8))
                &&& r is Err ==> (r matches Err(e) && error_is(e, ErrorKind::Other, "Database operation failed"@)
                    && final(operations).same_tables(old(operations)))
            }
            &&& b > 100 ==> (r matches Err(e) && error_is(
                e,
                ErrorKind::InvalidInput,
                "Brightness value was not in the range 0 to 100!"@,
            ) && final(operations).same_tables(old(operations)))
        },
        top_level.command matches Some(Command::SetDisplayZoneImageCommand(zone, path)) ==> {
            &&& zone_of(zone) is None ==> (r matches Err(e) && error_is(e, ErrorKind::InvalidData, "Unsupported command type"@)
                && final(operations).same_tables(old(operations)))
            &&& zone_of(zone) matches Some(z) ==> {
                &&& r is Ok ==> (r matches Ok(IncomingCommands::SetDisplayZoneImage(m)) && m.display_zone == z
                    && m.image_path@ == path@
                    && final(operations).images() == old(operations).images().insert(crate::display_zones::zone_id(z), path@)
                    && final(operations).inputs() == old(operations).inputs()
                    && final(operations).config() == old(operations).config())
                &&& r is Err ==> (r matches Err(e) && error_is(e, ErrorKind::Other, "Database operation failed"@)
                    && final(operations).same_tables(old(operations)))
            }
        },
        top_level.command matches Some(Command::ClearAllDisplayZoneImagesCommand(unpersist)) ==> {
            &&& !unpersist ==> (r matches Ok(IncomingCommands::ClearAllDisplayZoneImages)
                && final(operations).same_tables(old(operations)))
            &&& unpersist ==> {
                &&& r is Ok ==> (r matches Ok(IncomingCommands::ClearAllDisplayZoneImages)
                    && final(operations).images() == Map::<u8, Seq<char>>::empty()
                    && final(operations).inputs() == old(operations).inputs()
                    && final(operations).config() == old(operations).config())
                &&& r is Err ==> (r matches Err(e) && error_is(e, ErrorKind::Other, "Database operation failed"@)
                    && final(operations).same_tables(old(operations)))
            }
        },
        top_level.command matches Some(Command::ClearDisplayZoneImageCommand(zone)) ==> {
            &&& zone_of(zone) is None ==> (r matches Err(e) && error_is(e, ErrorKind::InvalidData, "Unsupported command type"@)
                && final(operations).same_tables(old(operations)))
            &&& zone_of(zone) matches Some(z) ==> {
                &&& r is Ok ==> (r matches Ok(IncomingCommands::ClearDisplayZoneImage(c)) && c == z
                    && final(operations).inputs() == old(operations).inputs()
                    && final(operations).config() == old(operations).config()
                    && final(operations).images() == old(operations).images().remove(crate::display_zones::zone_id(z)))
                &&& r is Err ==> (r matches Err(e) && error_is(e, ErrorKind::Other, "Database operation failed"@)
                    && final(operations).same_tables(old(operations)))
            }
        },
{
    let command = match top_level.command {
        Some(command) => command,
        None => {
            return Err(MessageError::new(ErrorKind::Other, "no command found"));
        },
    };
    match command {
        Command::KeyConfigCommand(command) => {
            let model = match StoredMapping::from_key_config(command) {
                Ok(m) => m,
                Err(_) => {
                    return Err(MessageError::new(ErrorKind::InvalidData, "Failed to convert command"));
                },
            };
            if model.input == InputActions::Unknown {
                return Err(MessageError::new(ErrorKind::InvalidData, "Failed to convert command"));
            }
            let mappings = InputMapping::from_mapping(model.clone_mapping());
            match operations.set_mapping_for_input(model) {
                Ok(_) => Ok(IncomingCommands::SetKeyConfig(mappings)),
                Err(_) => Err(MessageError::new(ErrorKind::Other, "Database operation failed")),
            }
        },
        Command::SetBootLogoCommand(image_path) => Ok(IncomingCommands::SetBootLogo(image_path)),
        Command::SetBrightnessCommand(brightness_value) => {
            if brightness_value <= 100 {
                match operations.set_brightness(brightness_value as u8) {
                    Ok(_) => Ok(IncomingCommands::SetBrightness(brightness_value as u8)),
                    Err(_) => Err(MessageError::new(ErrorKind::Other, "Database operation failed")),
                }
            } else {
                Err(MessageError::new(
                    ErrorKind::InvalidInput,
                    "Brightness value was not in the range 0 to 100!",
                ))
            }
        },
        Command::SetDisplayZoneImageCommand(display_zone, image_path) => {
            match ImageMapping::from_zone_image(display_zone, image_path) {
                Some(model) => {
                    let copy = ImageMapping { display_zone: model.display_zone, image_path: model.image_path.clone() };
                    match operations.set_image_for_display_zone(model) {
                        Ok(_) => Ok(IncomingCommands::SetDisplayZoneImage(copy)),
                        Err(_) => Err(MessageError::new(ErrorKind::Other, "Database operation failed")),
                    }
                },
                None => Err(MessageError::new(ErrorKind::InvalidData, "Unsupported command type")),
            }
        },
        Command::ClearAllDisplayZoneImagesCommand(unpersist_images) => {
            if unpersist_images {
                if operations.clear_all_display_zone_images().is_err() {
                    return Err(MessageError::new(ErrorKind::Other, "Database operation failed"));
                }
            }
            Ok(IncomingCommands::ClearAllDisplayZoneImages)
        },
        Command::ClearDisplayZoneImageCommand(display_zone) => {
            match DisplayZoneWrapper::try_from(display_zone) {
                Some(wrapper) => match operations.clear_image_for_display_zone(wrapper.display_zone()) {
                    Ok(_) => Ok(IncomingCommands::ClearDisplayZoneImage(wrapper.display_zone())),
                    Err(_) => Err(MessageError::new(ErrorKind::Other, "Database operation failed")),
                },
                None => Err(MessageError::new(ErrorKind::InvalidData, "Unsupported command type")),
            }
        },
    }
}

} // verus!
