use vstd::prelude::*;
use crate::display_zones::DisplayZones;
use crate::inputs::{ButtonActions, InputActions, KnobActions, TouchscreenAction};
use crate::keys::Keystroke;

verus! {

/// An input event as clients name it.
#[allow(non_camel_case_types)]
#[derive(Debug, Clone, Copy, PartialEq, Eq, Structural)]
pub enum InputId {
    INPUT_ACTION_UNSPECIFIED,
    BUTTON_1_PRESSED,
    BUTTON_2_PRESSED,
    BUTTON_3_PRESSED,
    BUTTON_4_PRESSED,
    BUTTON_5_PRESSED,
    BUTTON_6_PRESSED,
    BUTTON_7_PRESSED,
    BUTTON_8_PRESSED,
    BUTTON_9_PRESSED,
    BUTTON_10_PRESSED,
    BUTTON_1_RELEASED,
    BUTTON_2_RELEASED,
    BUTTON_3_RELEASED,
    BUTTON_4_RELEASED,
    BUTTON_5_RELEASED,
    BUTTON_6_RELEASED,
    BUTTON_7_RELEASED,
    BUTTON_8_RELEASED,
    BUTTON_9_RELEASED,
    BUTTON_10_RELEASED,
    KNOB_1_CLOCKWISE,
    KNOB_2_CLOCKWISE,
    KNOB_3_CLOCKWISE,
    KNOB_4_CLOCKWISE,
    KNOB_1_COUNTER_CLOCKWISE,
    KNOB_2_COUNTER_CLOCKWISE,
    KNOB_3_COUNTER_CLOCKWISE,
    KNOB_4_COUNTER_CLOCKWISE,
    KNOB_1_PRESSED,
    KNOB_2_PRESSED,
    KNOB_3_PRESSED,
    KNOB_4_PRESSED,
    TOUCHSCREEN_ZONE_1_PRESSED,
    TOUCHSCREEN_ZONE_2_PRESSED,
    TOUCHSCREEN_ZONE_3_PRESSED,
    TOUCHSCREEN_ZONE_4_PRESSED,
    TOUCHSCREEN_SWIPED_LEFT,
    TOUCHSCREEN_SWIPED_RIGHT,
    /// A value this library does not know.
    UNRECOGNISED(i32),
}

/// A key as clients name it.
#[allow(non_camel_case_types)]
#[derive(Debug, Clone, Copy, PartialEq, Eq, Structural)]
pub enum Key {
    KEY_ADD,
    KEY_ALT,
    KEY_BACKSPACE,
    KEY_CAPS_LOCK,
    KEY_CONTROL,
    KEY_DECIMAL,
    KEY_DELETE,
    KEY_DIVIDE,
    KEY_DOWN_ARROW,
    KEY_END,
    KEY_ESCAPE,
    KEY_F1,
    KEY_F2,
    KEY_F3,
    KEY_F4,
    KEY_F5,
    KEY_F6,
    KEY_F7,
    KEY_F8,
    KEY_F9,
    KEY_F10,
    KEY_F11,
    KEY_F12,
    KEY_F13,
    KEY_F14,
    KEY_F15,
    KEY_F16,
    KEY_F17,
    KEY_F18,
    KEY_F19,
    KEY_F20,
    KEY_HELP,
    KEY_HOME,
    KEY_L_CONTROL,
    KEY_LEFT_ARROW,
    KEY_L_SHIFT,
    KEY_MEDIA_NEXT_TRACK,
    KEY_MEDIA_PLAY_PAUSE,
    KEY_MEDIA_PREV_TRACK,
    KEY_META,
    KEY_MULTIPLY,
    KEY_NUMPAD0,
    KEY_NUMPAD1,
    KEY_NUMPAD2,
    KEY_NUMPAD3,
    KEY_NUMPAD4,
    KEY_NUMPAD5,
    KEY_NUMPAD6,
    KEY_NUMPAD7,
    KEY_NUMPAD8,
    KEY_NUMPAD9,
    KEY_OPTION,
    KEY_PAGE_DOWN,
    KEY_PAGE_UP,
    KEY_R_CONTROL,
    KEY_RETURN,
    KEY_RIGHT_ARROW,
    KEY_R_SHIFT,
    KEY_SHIFT,
    KEY_SPACE,
    KEY_SUBTRACT,
    KEY_TAB,
    KEY_UP_ARROW,
    KEY_VOLUME_DOWN,
    KEY_VOLUME_MUTE,
    KEY_VOLUME_UP,
    /// A Unicode character, given in `KeyAction::unicode`.
    KEY_UNICODE,
    /// A platform key code, given in `KeyAction::other_key_code`.
    KEY_OTHER,
    /// Any other key, by its value; these are not supported.
    UNSUPPORTED(i32),
}

/// A display zone as clients name it.
#[allow(non_camel_case_types)]
#[derive(Debug, Clone, Copy, PartialEq, Eq, Structural)]
pub enum DisplayZone {
    DISPLAY_ZONE_UNSPECIFIED,
    BUTTON_1,
    BUTTON_2,
    BUTTON_3,
    BUTTON_4,
    BUTTON_5,
    BUTTON_6,
    BUTTON_7,
    BUTTON_8,
    BUTTON_9,
    BUTTON_10,
    TOUCHSCREEN_1,
    TOUCHSCREEN_2,
    TOUCHSCREEN_3,
    TOUCHSCREEN_4,
    UNRECOGNISED(i32),
}

/// One key to click.
#[derive(Debug, Clone, Copy, PartialEq, Eq, Structural)]
pub struct KeyAction {
    pub key: Key,
    pub unicode: Option<u32>,
    pub other_key_code: Option<u32>,
}

impl KeyAction {
    /// A key action with no character and no key code.
    pub fn new(key: Key) -> (r: Self)
        ensures
            r.key == key,
            r.unicode is None,
            r.other_key_code is None,
    {
        KeyAction { key, unicode: None, other_key_code: None }
    }
}

/// One step of a key configuration.
#[derive(Debug, Clone, Copy, PartialEq, Eq, Structural)]
pub struct Action {
    pub key_action: Option<KeyAction>,
}

/// The key action of an action that has none: an unsupported key 0.
pub open spec fn default_key_action() -> KeyAction {
    KeyAction { key: Key::UNSUPPORTED(0), unicode: None, other_key_code: None }
}

impl Action {
    /// The action's key action, or the default one when it has none.
    pub fn key_action(&self) -> (r: KeyAction)
        ensures
            r == (match self.key_action {
                Some(k) => k,
                None => default_key_action(),
            }),
    {
        match self.key_action {
            Some(k) => k,
            None => KeyAction { key: Key::UNSUPPORTED(0), unicode: None, other_key_code: None },
        }
    }
}

/// Binds an input event to a sequence of actions.
#[derive(Debug, Clone)]
pub struct KeyConfig {
    pub input_id: InputId,
    pub actions: Vec<Action>,
}

/// One command from a client.
#[derive(Debug, Clone)]
pub enum Command {
    KeyConfigCommand(KeyConfig),
    SetBootLogoCommand(String),
    SetBrightnessCommand(u32),
    SetDisplayZoneImageCommand(DisplayZone, String),
    ClearAllDisplayZoneImagesCommand(bool),
    ClearDisplayZoneImageCommand(DisplayZone),
}

/// A client message: at most one command.
#[derive(Debug, Clone)]
pub struct TopLevel {
    pub command: Option<Command>,
}

/// The event a client's input identifier names; the unspecified and
/// unrecognised ones name `Unknown`.
pub open spec fn input_of_id(id: InputId) -> InputActions {
    match id {
        InputId::BUTTON_1_PRESSED => InputActions::Button(ButtonActions::Button1Pressed),
        InputId::BUTTON_2_PRESSED => InputActions::Button(ButtonActions::Button2Pressed),
        InputId::BUTTON_3_PRESSED => InputActions::Button(ButtonActions::Button3Pressed),
        InputId::BUTTON_4_PRESSED => InputActions::Button(ButtonActions::Button4Pressed),
        InputId::BUTTON_5_PRESSED => InputActions::Button(ButtonActions::Button5Pressed),
        InputId::BUTTON_6_PRESSED => InputActions::Button(ButtonActions::Button6Pressed),
        InputId::BUTTON_7_PRESSED => InputActions::Button(ButtonActions::Button7Pressed),
        InputId::BUTTON_8_PRESSED => InputActions::Button(ButtonActions::Button8Pressed),
        InputId::BUTTON_9_PRESSED => InputActions::Button(ButtonActions::Button9Pressed),
        InputId::BUTTON_10_PRESSED => InputActions::Button(ButtonActions::Button10Pressed),
        InputId::BUTTON_1_RELEASED => InputActions::Button(ButtonActions::Button1Released),
        InputId::BUTTON_2_RELEASED => InputActions::Button(ButtonActions::Button2Released),
        InputId::BUTTON_3_RELEASED => InputActions::Button(ButtonActions::Button3Released),
        InputId::BUTTON_4_RELEASED => InputActions::Button(ButtonActions::Button4Released),
        InputId::BUTTON_5_RELEASED => InputActions::Button(ButtonActions::Button5Released),
        InputId::BUTTON_6_RELEASED => InputActions::Button(ButtonActions::Button6Released),
        InputId::BUTTON_7_RELEASED => InputActions::Button(ButtonActions::Button7Released),
        InputId::BUTTON_8_RELEASED => InputActions::Button(ButtonActions::Button8Released),
        InputId::BUTTON_9_RELEASED => InputActions::Button(ButtonActions::Button9Released),
        InputId::BUTTON_10_RELEASED => InputActions::Button(ButtonActions::Button10Released),
        InputId::KNOB_1_CLOCKWISE => InputActions::Knob(KnobActions::Knob1Clockwise),
        InputId::KNOB_2_CLOCKWISE => InputActions::Knob(KnobActions::Knob2Clockwise),
        InputId::KNOB_3_CLOCKWISE => InputActions::Knob(KnobActions::Knob3Clockwise),
        InputId::KNOB_4_CLOCKWISE => InputActions::Knob(KnobActions::Knob4Clockwise),
        InputId::KNOB_1_COUNTER_CLOCKWISE => InputActions::Knob(KnobActions::Knob1CounterClockwise),
        InputId::KNOB_2_COUNTER_CLOCKWISE => InputActions::Knob(KnobActions::Knob2CounterClockwise),
        InputId::KNOB_3_COUNTER_CLOCKWISE => InputActions::Knob(KnobActions::Knob3CounterClockwise),
        InputId::KNOB_4_COUNTER_CLOCKWISE => InputActions::Knob(KnobActions::Knob4CounterClockwise),
        InputId::KNOB_1_PRESSED => InputActions::Knob(KnobActions::Knob1Pressed),
        InputId::KNOB_2_PRESSED => InputActions::Knob(KnobActions::Knob2Pressed),
        InputId::KNOB_3_PRESSED => InputActions::Knob(KnobActions::Knob3Pressed),
        InputId::KNOB_4_PRESSED => InputActions::Knob(KnobActions::Knob4Pressed),
        InputId::TOUCHSCREEN_ZONE_1_PRESSED => InputActions::Touchscreen(TouchscreenAction::Zone1Pressed),
        InputId::TOUCHSCREEN_ZONE_2_PRESSED => InputActions::Touchscreen(TouchscreenAction::Zone2Pressed),
        InputId::TOUCHSCREEN_ZONE_3_PRESSED => InputActions::Touchscreen(TouchscreenAction::Zone3Pressed),
        InputId::TOUCHSCREEN_ZONE_4_PRESSED => InputActions::Touchscreen(TouchscreenAction::Zone4Pressed),
        InputId::TOUCHSCREEN_SWIPED_LEFT => InputActions::Touchscreen(TouchscreenAction::SwipedLeft),
        InputId::TOUCHSCREEN_SWIPED_RIGHT => InputActions::Touchscreen(TouchscreenAction::SwipedRight),
        InputId::INPUT_ACTION_UNSPECIFIED => InputActions::Unknown,
        InputId::UNRECOGNISED(_) => InputActions::Unknown,
    }
}

/// The keystroke a named client key stands for.
pub open spec fn named_key_of(key: Key) -> Option<Keystroke> {
    match key {
        Key::KEY_ADD => Some(Keystroke::Add),
        Key::KEY_ALT => Some(Keystroke::Alt),
        Key::KEY_BACKSPACE => Some(Keystroke::Backspace),
        Key::KEY_CAPS_LOCK => Some(Keystroke::CapsLock),
        Key::KEY_CONTROL => Some(Keystroke::Control),
        Key::KEY_DECIMAL => Some(Keystroke::Decimal),
        Key::KEY_DELETE => Some(Keystroke::Delete),
        Key::KEY_DIVIDE => Some(Keystroke::Divide),
        Key::KEY_DOWN_ARROW => Some(Keystroke::DownArrow),
        Key::KEY_END => Some(Keystroke::End),
        Key::KEY_ESCAPE => Some(Keystroke::Escape),
        Key::KEY_F1 => Some(Keystroke::F1),
        Key::KEY_F2 => Some(Keystroke::F2),
        Key::KEY_F3 => Some(Keystroke::F3),
        Key::KEY_F4 => Some(Keystroke::F4),
        Key::KEY_F5 => Some(Keystroke::F5),
        Key::KEY_F6 => Some(Keystroke::F6),
        Key::KEY_F7 => Some(Keystroke::F7),
        Key::KEY_F8 => Some(Keystroke::F8),
        Key::KEY_F9 => Some(Keystroke::F9),
        Key::KEY_F10 => Some(Keystroke::F10),
        Key::KEY_F11 => Some(Keystroke::F11),
        Key::KEY_F12 => Some(Keystroke::F12),
        Key::KEY_F13 => Some(Keystroke::F13),
        Key::KEY_F14 => Some(Keystroke::F14),
        Key::KEY_F15 => Some(Keystroke::F15),
        Key::KEY_F16 => Some(Keystroke::F16),
        Key::KEY_F17 => Some(Keystroke::F17),
        Key::KEY_F18 => Some(Keystroke::F18),
        Key::KEY_F19 => Some(Keystroke::F19),
        Key::KEY_F20 => Some(Keystroke::F20),
        Key::KEY_HELP => Some(Keystroke::Help),
        Key::KEY_HOME => Some(Keystroke::Home),
        Key::KEY_L_CONTROL => Some(Keystroke::LControl),
        Key::KEY_LEFT_ARROW => Some(Keystroke::LeftArrow),
        Key::KEY_L_SHIFT => Some(Keystroke::LShift),
        Key::KEY_MEDIA_NEXT_TRACK => Some(Keystroke::MediaNextTrack),
        Key::KEY_MEDIA_PLAY_PAUSE => Some(Keystroke::MediaPlayPause),
        Key::KEY_MEDIA_PREV_TRACK => Some(Keystroke::MediaPrevTrack),
        Key::KEY_META => Some(Keystroke::Meta),
        Key::KEY_MULTIPLY => Some(Keystroke::Multiply),
        Key::KEY_NUMPAD0 => Some(Keystroke::Numpad0),
        Key::KEY_NUMPAD1 => Some(Keystroke::Numpad1),
        Key::KEY_NUMPAD2 => Some(Keystroke::Numpad2),
        Key::KEY_NUMPAD3 => Some(Keystroke::Numpad3),
        Key::KEY_NUMPAD4 => Some(Keystroke::Numpad4),
        Key::KEY_NUMPAD5 => Some(Keystroke::Numpad5),
        Key::KEY_NUMPAD6 => Some(Keystroke::Numpad6),
        Key::KEY_NUMPAD7 => Some(Keystroke::Numpad7),
        Key::KEY_NUMPAD8 => Some(Keystroke::Numpad8),
        Key::KEY_NUMPAD9 => Some(Keystroke::Numpad9),
        Key::KEY_OPTION => Some(Keystroke::Option),
        Key::KEY_PAGE_DOWN => Some(Keystroke::PageDown),
        Key::KEY_PAGE_UP => Some(Keystroke::PageUp),
        Key::KEY_R_CONTROL => Some(Keystroke::RControl),
        Key::KEY_RETURN => Some(Keystroke::Return),
        Key::KEY_RIGHT_ARROW => Some(Keystroke::RightArrow),
        Key::KEY_R_SHIFT => Some(Keystroke::RShift),
        Key::KEY_SHIFT => Some(Keystroke::Shift),
        Key::KEY_SPACE => Some(Keystroke::Space),
        Key::KEY_SUBTRACT => Some(Keystroke::Subtract),
        Key::KEY_TAB => Some(Keystroke::Tab),
        Key::KEY_UP_ARROW => Some(Keystroke::UpArrow),
        Key::KEY_VOLUME_DOWN => Some(Keystroke::VolumeDown),
        Key::KEY_VOLUME_MUTE => Some(Keystroke::VolumeMute),
        Key::KEY_VOLUME_UP => Some(Keystroke::VolumeUp),
        _ => None,
    }
}

/// The zone a client's display zone names, if any.
pub open spec fn zone_of(zone: DisplayZone) -> Option<DisplayZones> {
    match zone {
        DisplayZone::BUTTON_1 => Some(DisplayZones::Button1),
        DisplayZone::BUTTON_2 => Some(DisplayZones::Button2),
        DisplayZone::BUTTON_3 => Some(DisplayZones::Button3),
        DisplayZone::BUTTON_4 => Some(DisplayZones::Button4),
        DisplayZone::BUTTON_5 => Some(DisplayZones::Button5),
        DisplayZone::BUTTON_6 => Some(DisplayZones::Button6),
        DisplayZone::BUTTON_7 => Some(DisplayZones::Button7),
        DisplayZone::BUTTON_8 => Some(DisplayZones::Button8),
        DisplayZone::BUTTON_9 => Some(DisplayZones::Button9),
        DisplayZone::BUTTON_10 => Some(DisplayZones::Button10),
        DisplayZone::TOUCHSCREEN_1 => Some(DisplayZones::Touchscreen1),
        DisplayZone::TOUCHSCREEN_2 => Some(DisplayZones::Touchscreen2),
        DisplayZone::TOUCHSCREEN_3 => Some(DisplayZones::Touchscreen3),
        DisplayZone::TOUCHSCREEN_4 => Some(DisplayZones::Touchscreen4),
        _ => None,
    }
}

/// An input event converted from a client's input identifier.
#[derive(Debug, Clone, Copy, PartialEq, Eq, Structural)]
pub struct InputActionWrapper(pub InputActions);

impl InputActionWrapper {
    pub fn from(value: InputId) -> (r: InputActionWrapper)
        ensures
            r.0 == input_of_id(value),
    {
        match value {
            InputId::INPUT_ACTION_UNSPECIFIED => InputActionWrapper(InputActions::Unknown),
            InputId::BUTTON_1_PRESSED => InputActionWrapper(InputActions::Button(ButtonActions::Button1Pressed)),
            InputId::BUTTON_2_PRESSED => InputActionWrapper(InputActions::Button(ButtonActions::Button2Pressed)),
            InputId::BUTTON_3_PRESSED => InputActionWrapper(InputActions::Button(ButtonActions::Button3Pressed)),
            InputId::BUTTON_4_PRESSED => InputActionWrapper(InputActions::Button(ButtonActions::Button4Pressed)),
            InputId::BUTTON_5_PRESSED => InputActionWrapper(InputActions::Button(ButtonActions::Button5Pressed)),
            InputId::BUTTON_6_PRESSED => InputActionWrapper(InputActions::Button(ButtonActions::Button6Pressed)),
            InputId::BUTTON_7_PRESSED => InputActionWrapper(InputActions::Button(ButtonActions::Button7Pressed)),
            InputId::BUTTON_8_PRESSED => InputActionWrapper(InputActions::Button(ButtonActions::Button8Pressed)),
            InputId::BUTTON_9_PRESSED => InputActionWrapper(InputActions::Button(ButtonActions::Button9Pressed)),
            InputId::BUTTON_10_PRESSED => InputActionWrapper(InputActions::Button(ButtonActions::Button10Pressed)),
            InputId::BUTTON_1_RELEASED => InputActionWrapper(InputActions::Button(ButtonActions::Button1Released)),
            InputId::BUTTON_2_RELEASED => InputActionWrapper(InputActions::Button(ButtonActions::Button2Released)),
            InputId::BUTTON_3_RELEASED => InputActionWrapper(InputActions::Button(ButtonActions::Button3Released)),
            InputId::BUTTON_4_RELEASED => InputActionWrapper(InputActions::Button(ButtonActions::Button4Released)),
            InputId::BUTTON_5_RELEASED => InputActionWrapper(InputActions::Button(ButtonActions::Button5Released)),
            InputId::BUTTON_6_RELEASED => InputActionWrapper(InputActions::Button(ButtonActions::Button6Released)),
            InputId::BUTTON_7_RELEASED => InputActionWrapper(InputActions::Button(ButtonActions::Button7Released)),
            InputId::BUTTON_8_RELEASED => InputActionWrapper(InputActions::Button(ButtonActions::Button8Released)),
            InputId::BUTTON_9_RELEASED => InputActionWrapper(InputActions::Button(ButtonActions::Button9Released)),
            InputId::BUTTON_10_RELEASED => InputActionWrapper(InputActions::Button(ButtonActions::Button10Released)),
            InputId::KNOB_1_CLOCKWISE => InputActionWrapper(InputActions::Knob(KnobActions::Knob1Clockwise)),
            InputId::KNOB_2_CLOCKWISE => InputActionWrapper(InputActions::Knob(KnobActions::Knob2Clockwise)),
            InputId::KNOB_3_CLOCKWISE => InputActionWrapper(InputActions::Knob(KnobActions::Knob3Clockwise)),
            InputId::KNOB_4_CLOCKWISE => InputActionWrapper(InputActions::Knob(KnobActions::Knob4Clockwise)),
            InputId::KNOB_1_COUNTER_CLOCKWISE => InputActionWrapper(InputActions::Knob(KnobActions::Knob1CounterClockwise)),
            InputId::KNOB_2_COUNTER_CLOCKWISE => InputActionWrapper(InputActions::Knob(KnobActions::Knob2CounterClockwise)),
            InputId::KNOB_3_COUNTER_CLOCKWISE => InputActionWrapper(InputActions::Knob(KnobActions::Knob3CounterClockwise)),
            InputId::KNOB_4_COUNTER_CLOCKWISE => InputActionWrapper(InputActions::Knob(KnobActions::Knob4CounterClockwise)),
            InputId::KNOB_1_PRESSED => InputActionWrapper(InputActions::Knob(KnobActions::Knob1Pressed)),
            InputId::KNOB_2_PRESSED => InputActionWrapper(InputActions::Knob(KnobActions::Knob2Pressed)),
            InputId::KNOB_3_PRESSED => InputActionWrapper(InputActions::Knob(KnobActions::Knob3Pressed)),
            InputId::KNOB_4_PRESSED => InputActionWrapper(InputActions::Knob(KnobActions::Knob4Pressed)),
            InputId::TOUCHSCREEN_ZONE_1_PRESSED => InputActionWrapper(InputActions::Touchscreen(TouchscreenAction::Zone1Pressed)),
            InputId::TOUCHSCREEN_ZONE_2_PRESSED => InputActionWrapper(InputActions::Touchscreen(TouchscreenAction::Zone2Pressed)),
            InputId::TOUCHSCREEN_ZONE_3_PRESSED => InputActionWrapper(InputActions::Touchscreen(TouchscreenAction::Zone3Pressed)),
            InputId::TOUCHSCREEN_ZONE_4_PRESSED => InputActionWrapper(InputActions::Touchscreen(TouchscreenAction::Zone4Pressed)),
            InputId::TOUCHSCREEN_SWIPED_LEFT => InputActionWrapper(InputActions::Touchscreen(TouchscreenAction::SwipedLeft)),
            InputId::TOUCHSCREEN_SWIPED_RIGHT => InputActionWrapper(InputActions::Touchscreen(TouchscreenAction::SwipedRight)),
            InputId::UNRECOGNISED(_) => InputActionWrapper(InputActions::Unknown),
        }
    }
}

/// Why a client's key action names no keystroke.
#[derive(Debug, Clone, Copy, PartialEq, Eq, Structural)]
pub enum KeyError {
    /// `KEY_UNICODE` with a value that is no Unicode scalar value.
    InvalidUnicode(u32),
    /// `KEY_UNICODE` without a character.
    UnicodeMissing,
    /// `KEY_OTHER` without a key code.
    OtherKeyCodeMissing,
    /// A key this library does not support, by its value.
    UnsupportedKey(i32),
}

/// The Unicode scalar value of a character.
pub open spec fn scalar_of(c: char) -> u32 {
    c as u32
}

proof fn lemma_scalar_injective(a: char, b: char)
    ensures
        scalar_of(a) == scalar_of(b) ==> a == b,
{
}

/// Whether `u` is a Unicode scalar value, which is what a `char` holds.
pub open spec fn is_scalar_value(u: u32) -> bool {
    u < 0xD800 || (0xE000 <= u && u <= 0x10FFFF)
}

/// Relies on std's `char::from_u32`, which gives the character for a Unicode
/// scalar value and `None` for any other number.
#[verifier::external_body]
fn char_from_u32(u: u32) -> (r: Option<char>)
    ensures
        r is Some <==> is_scalar_value(u),
        r matches Some(c) ==> scalar_of(c) == u,
{
    char::from_u32(u)
}

/// The keystroke that a client's key action names, or why it names none.
pub open spec fn keystroke_of(k: KeyAction) -> Result<Keystroke, KeyError> {
    match k.key {
        Key::KEY_UNICODE => match k.unicode {
            Some(u) => if is_scalar_value(u) {
                Ok(Keystroke::Unicode(choose|c: char| #[trigger] scalar_of(c) == u))
            } else {
                Err(KeyError::InvalidUnicode(u))
            },
            None => Err(KeyError::UnicodeMissing),
        },
        Key::KEY_OTHER => match k.other_key_code {
            Some(c) => Ok(Keystroke::Other(c)),
            None => Err(KeyError::OtherKeyCodeMissing),
        },
        Key::UNSUPPORTED(v) => Err(KeyError::UnsupportedKey(v)),
        _ => Ok(named_key_of(k.key)->0),
    }
}

/// The keystroke a named client key stands for.
fn named_keystroke(key: Key) -> (r: Option<Keystroke>)
    ensures
        r == named_key_of(key),
        !(key is KEY_UNICODE || key is KEY_OTHER || key is UNSUPPORTED) ==> r is Some,
{
    match key {
            Key::KEY_ADD => Some(Keystroke::Add),
            Key::KEY_ALT => Some(Keystroke::Alt),
            Key::KEY_BACKSPACE => Some(Keystroke::Backspace),
            Key::KEY_CAPS_LOCK => Some(Keystroke::CapsLock),
            Key::KEY_CONTROL => Some(Keystroke::Control),
            Key::KEY_DECIMAL => Some(Keystroke::Decimal),
            Key::KEY_DELETE => Some(Keystroke::Delete),
            Key::KEY_DIVIDE => Some(Keystroke::Divide),
            Key::KEY_DOWN_ARROW => Some(Keystroke::DownArrow),
            Key::KEY_END => Some(Keystroke::End),
            Key::KEY_ESCAPE => Some(Keystroke::Escape),
            Key::KEY_F1 => Some(Keystroke::F1),
            Key::KEY_F2 => Some(Keystroke::F2),
            Key::KEY_F3 => Some(Keystroke::F3),
            Key::KEY_F4 => Some(Keystroke::F4),
            Key::KEY_F5 => Some(Keystroke::F5),
            Key::KEY_F6 => Some(Keystroke::F6),
            Key::KEY_F7 => Some(Keystroke::F7),
            Key::KEY_F8 => Some(Keystroke::F8),
            Key::KEY_F9 => Some(Keystroke::F9),
            Key::KEY_F10 => Some(Keystroke::F10),
            Key::KEY_F11 => Some(Keystroke::F11),
            Key::KEY_F12 => Some(Keystroke::F12),
            Key::KEY_F13 => Some(Keystroke::F13),
            Key::KEY_F14 => Some(Keystroke::F14),
            Key::KEY_F15 => Some(Keystroke::F15),
            Key::KEY_F16 => Some(Keystroke::F16),
            Key::KEY_F17 => Some(Keystroke::F17),
            Key::KEY_F18 => Some(Keystroke::F18),
            Key::KEY_F19 => Some(Keystroke::F19),
            Key::KEY_F20 => Some(Keystroke::F20),
            Key::KEY_HELP => Some(Keystroke::Help),
            Key::KEY_HOME => Some(Keystroke::Home),
            Key::KEY_L_CONTROL => Some(Keystroke::LControl),
            Key::KEY_LEFT_ARROW => Some(Keystroke::LeftArrow),
            Key::KEY_L_SHIFT => Some(Keystroke::LShift),
            Key::KEY_MEDIA_NEXT_TRACK => Some(Keystroke::MediaNextTrack),
            Key::KEY_MEDIA_PLAY_PAUSE => Some(Keystroke::MediaPlayPause),
            Key::KEY_MEDIA_PREV_TRACK => Some(Keystroke::MediaPrevTrack),
            Key::KEY_META => Some(Keystroke::Meta),
            Key::KEY_MULTIPLY => Some(Keystroke::Multiply),
            Key::KEY_NUMPAD0 => Some(Keystroke::Numpad0),
            Key::KEY_NUMPAD1 => Some(Keystroke::Numpad1),
            Key::KEY_NUMPAD2 => Some(Keystroke::Numpad2),
            Key::KEY_NUMPAD3 => Some(Keystroke::Numpad3),
            Key::KEY_NUMPAD4 => Some(Keystroke::Numpad4),
            Key::KEY_NUMPAD5 => Some(Keystroke::Numpad5),
            Key::KEY_NUMPAD6 => Some(Keystroke::Numpad6),
            Key::KEY_NUMPAD7 => Some(Keystroke::Numpad7),
            Key::KEY_NUMPAD8 => Some(Keystroke::Numpad8),
            Key::KEY_NUMPAD9 => Some(Keystroke::Numpad9),
            Key::KEY_OPTION => Some(Keystroke::Option),
            Key::KEY_PAGE_DOWN => Some(Keystroke::PageDown),
            Key::KEY_PAGE_UP => Some(Keystroke::PageUp),
            Key::KEY_R_CONTROL => Some(Keystroke::RControl),
            Key::KEY_RETURN => Some(Keystroke::Return),
            Key::KEY_RIGHT_ARROW => Some(Keystroke::RightArrow),
            Key::KEY_R_SHIFT => Some(Keystroke::RShift),
            Key::KEY_SHIFT => Some(Keystroke::Shift),
            Key::KEY_SPACE => Some(Keystroke::Space),
            Key::KEY_SUBTRACT => Some(Keystroke::Subtract),
            Key::KEY_TAB => Some(Keystroke::Tab),
            Key::KEY_UP_ARROW => Some(Keystroke::UpArrow),
            Key::KEY_VOLUME_DOWN => Some(Keystroke::VolumeDown),
            Key::KEY_VOLUME_MUTE => Some(Keystroke::VolumeMute),
            Key::KEY_VOLUME_UP => Some(Keystroke::VolumeUp),
            _ => None,
    }
}

/// A keystroke converted from a client's key action.
#[derive(Debug, Clone, Copy, PartialEq, Eq, Structural)]
pub struct KeyWrapper(pub Keystroke);

impl KeyWrapper {
    pub fn try_from(value: KeyAction) -> (r: Result<KeyWrapper, KeyError>)
        ensures
            r == (match keystroke_of(value) {
                Ok(k) => Ok(KeyWrapper(k)),
                Err(e) => Err(e),
            }),
    {
        match value.key {
            Key::KEY_UNICODE => match value.unicode {
                Some(unicode) => match char_from_u32(unicode) {
                    Some(c) => {
                        proof {
                            let c2 = choose|x: char| #[trigger] scalar_of(x) == unicode;
                            lemma_scalar_injective(c, c2);
                        }
                        Ok(KeyWrapper(Keystroke::Unicode(c)))
                    },
                    None => Err(KeyError::InvalidUnicode(unicode)),
                },
                None => Err(KeyError::UnicodeMissing),
            },
            Key::KEY_OTHER => match value.other_key_code {
                Some(key_code) => Ok(KeyWrapper(Keystroke::Other(key_code))),
                None => Err(KeyError::OtherKeyCodeMissing),
            },
            Key::UNSUPPORTED(v) => Err(KeyError::UnsupportedKey(v)),
            _ => match named_keystroke(value.key) {
                Some(k) => Ok(KeyWrapper(k)),
                None => Err(KeyError::UnsupportedKey(0)),
            },
        }
    }
}

/// A display zone converted from a client's display zone.
#[derive(Debug, Clone, Copy, PartialEq, Eq, Structural)]
pub struct DisplayZoneWrapper(pub DisplayZones);

impl DisplayZoneWrapper {
    pub fn try_from(value: DisplayZone) -> (r: Option<DisplayZoneWrapper>)
        ensures
            zone_of(value) matches Some(z) ==> r == Some(DisplayZoneWrapper(z)),
            zone_of(value) is None ==> r is None,
    {
        match value {
            DisplayZone::BUTTON_1 => Some(DisplayZoneWrapper(DisplayZones::Button1)),
            DisplayZone::BUTTON_2 => Some(DisplayZoneWrapper(DisplayZones::Button2)),
            DisplayZone::BUTTON_3 => Some(DisplayZoneWrapper(DisplayZones::Button3)),
            DisplayZone::BUTTON_4 => Some(DisplayZoneWrapper(DisplayZones::Button4)),
            DisplayZone::BUTTON_5 => Some(DisplayZoneWrapper(DisplayZones::Button5)),
            DisplayZone::BUTTON_6 => Some(DisplayZoneWrapper(DisplayZones::Button6)),
            DisplayZone::BUTTON_7 => Some(DisplayZoneWrapper(DisplayZones::Button7)),
            DisplayZone::BUTTON_8 => Some(DisplayZoneWrapper(DisplayZones::Button8)),
            DisplayZone::BUTTON_9 => Some(DisplayZoneWrapper(DisplayZones::Button9)),
            DisplayZone::BUTTON_10 => Some(DisplayZoneWrapper(DisplayZones::Button10)),
            DisplayZone::TOUCHSCREEN_1 => Some(DisplayZoneWrapper(DisplayZones::Touchscreen1)),
            DisplayZone::TOUCHSCREEN_2 => Some(DisplayZoneWrapper(DisplayZones::Touchscreen2)),
            DisplayZone::TOUCHSCREEN_3 => Some(DisplayZoneWrapper(DisplayZones::Touchscreen3)),
            DisplayZone::TOUCHSCREEN_4 => Some(DisplayZoneWrapper(DisplayZones::Touchscreen4)),
            _ => None,
        }
    }

    pub fn display_zone(&self) -> (r: DisplayZones)
        ensures
            r == self.0,
    {
        self.0
    }
}

impl InputId {
    /// The number that stands for this value on the wire.
    pub open spec fn spec_value(self) -> i32 {
        match self {
            InputId::INPUT_ACTION_UNSPECIFIED => 0,
            InputId::BUTTON_1_PRESSED => 1,
            InputId::BUTTON_2_PRESSED => 2,
            InputId::BUTTON_3_PRESSED => 3,
            InputId::BUTTON_4_PRESSED => 4,
            InputId::BUTTON_5_PRESSED => 5,
            InputId::BUTTON_6_PRESSED => 6,
            InputId::BUTTON_7_PRESSED => 7,
            InputId::BUTTON_8_PRESSED => 8,
            InputId::BUTTON_9_PRESSED => 9,
            InputId::BUTTON_10_PRESSED => 10,
            InputId::BUTTON_1_RELEASED => 11,
            InputId::BUTTON_2_RELEASED => 12,
            InputId::BUTTON_3_RELEASED => 13,
            InputId::BUTTON_4_RELEASED => 14,
            InputId::BUTTON_5_RELEASED => 15,
            InputId::BUTTON_6_RELEASED => 16,
            InputId::BUTTON_7_RELEASED => 17,
            InputId::BUTTON_8_RELEASED => 18,
            InputId::BUTTON_9_RELEASED => 19,
            InputId::BUTTON_10_RELEASED => 20,
            InputId::KNOB_1_CLOCKWISE => 21,
            InputId::KNOB_2_CLOCKWISE => 22,
            InputId::KNOB_3_CLOCKWISE => 23,
            InputId::KNOB_4_CLOCKWISE => 24,
            InputId::KNOB_1_COUNTER_CLOCKWISE => 25,
            InputId::KNOB_2_COUNTER_CLOCKWISE => 26,
            InputId::KNOB_3_COUNTER_CLOCKWISE => 27,
            InputId::KNOB_4_COUNTER_CLOCKWISE => 28,
            InputId::KNOB_1_PRESSED => 29,
            InputId::KNOB_2_PRESSED => 30,
            InputId::KNOB_3_PRESSED => 31,
            InputId::KNOB_4_PRESSED => 32,
            InputId::TOUCHSCREEN_ZONE_1_PRESSED => 33,
            InputId::TOUCHSCREEN_ZONE_2_PRESSED => 34,
            InputId::TOUCHSCREEN_ZONE_3_PRESSED => 35,
            InputId::TOUCHSCREEN_ZONE_4_PRESSED => 36,
            InputId::TOUCHSCREEN_SWIPED_LEFT => 37,
            InputId::TOUCHSCREEN_SWIPED_RIGHT => 38,
            InputId::UNRECOGNISED(v) => v,
        }
    }

    pub fn value(self) -> (r: i32)
        ensures
            r == self.spec_value(),
    {
        match self {
            InputId::INPUT_ACTION_UNSPECIFIED => 0,
            InputId::BUTTON_1_PRESSED => 1,
            InputId::BUTTON_2_PRESSED => 2,
            InputId::BUTTON_3_PRESSED => 3,
            InputId::BUTTON_4_PRESSED => 4,
            InputId::BUTTON_5_PRESSED => 5,
            InputId::BUTTON_6_PRESSED => 6,
            InputId::BUTTON_7_PRESSED => 7,
            InputId::BUTTON_8_PRESSED => 8,
            InputId::BUTTON_9_PRESSED => 9,
            InputId::BUTTON_10_PRESSED => 10,
            InputId::BUTTON_1_RELEASED => 11,
            InputId::BUTTON_2_RELEASED => 12,
            InputId::BUTTON_3_RELEASED => 13,
            InputId::BUTTON_4_RELEASED => 14,
            InputId::BUTTON_5_RELEASED => 15,
            InputId::BUTTON_6_RELEASED => 16,
            InputId::BUTTON_7_RELEASED => 17,
            InputId::BUTTON_8_RELEASED => 18,
            InputId::BUTTON_9_RELEASED => 19,
            InputId::BUTTON_10_RELEASED => 20,
            InputId::KNOB_1_CLOCKWISE => 21,
            InputId::KNOB_2_CLOCKWISE => 22,
            InputId::KNOB_3_CLOCKWISE => 23,
            InputId::KNOB_4_CLOCKWISE => 24,
            InputId::KNOB_1_COUNTER_CLOCKWISE => 25,
            InputId::KNOB_2_COUNTER_CLOCKWISE => 26,
            InputId::KNOB_3_COUNTER_CLOCKWISE => 27,
            InputId::KNOB_4_COUNTER_CLOCKWISE => 28,
            InputId::KNOB_1_PRESSED => 29,
            InputId::KNOB_2_PRESSED => 30,
            InputId::KNOB_3_PRESSED => 31,
            InputId::KNOB_4_PRESSED => 32,
            InputId::TOUCHSCREEN_ZONE_1_PRESSED => 33,
            InputId::TOUCHSCREEN_ZONE_2_PRESSED => 34,
            InputId::TOUCHSCREEN_ZONE_3_PRESSED => 35,
            InputId::TOUCHSCREEN_ZONE_4_PRESSED => 36,
            InputId::TOUCHSCREEN_SWIPED_LEFT => 37,
            InputId::TOUCHSCREEN_SWIPED_RIGHT => 38,
            InputId::UNRECOGNISED(v) => v,
        }
    }

    /// The value a wire number stands for; an unknown number is kept as `UNRECOGNISED`.
    pub fn from_value(v: i32) -> (r: InputId)
        ensures
            r.spec_value() == v,
            (0 <= v <= 38) <==> !(r is UNRECOGNISED),
    {
        match v {
            0 => InputId::INPUT_ACTION_UNSPECIFIED,
            1 => InputId::BUTTON_1_PRESSED,
            2 => InputId::BUTTON_2_PRESSED,
            3 => InputId::BUTTON_3_PRESSED,
            4 => InputId::BUTTON_4_PRESSED,
            5 => InputId::BUTTON_5_PRESSED,
            6 => InputId::BUTTON_6_PRESSED,
            7 => InputId::BUTTON_7_PRESSED,
            8 => InputId::BUTTON_8_PRESSED,
            9 => InputId::BUTTON_9_PRESSED,
            10 => InputId::BUTTON_10_PRESSED,
            11 => InputId::BUTTON_1_RELEASED,
            12 => InputId::BUTTON_2_RELEASED,
            13 => InputId::BUTTON_3_RELEASED,
            14 => InputId::BUTTON_4_RELEASED,
            15 => InputId::BUTTON_5_RELEASED,
            16 => InputId::BUTTON_6_RELEASED,
            17 => InputId::BUTTON_7_RELEASED,
            18 => InputId::BUTTON_8_RELEASED,
            19 => InputId::BUTTON_9_RELEASED,
            20 => InputId::BUTTON_10_RELEASED,
            21 => InputId::KNOB_1_CLOCKWISE,
            22 => InputId::KNOB_2_CLOCKWISE,
            23 => InputId::KNOB_3_CLOCKWISE,
            24 => InputId::KNOB_4_CLOCKWISE,
            25 => InputId::KNOB_1_COUNTER_CLOCKWISE,
            26 => InputId::KNOB_2_COUNTER_CLOCKWISE,
            27 => InputId::KNOB_3_COUNTER_CLOCKWISE,
            28 => InputId::KNOB_4_COUNTER_CLOCKWISE,
            29 => InputId::KNOB_1_PRESSED,
            30 => InputId::KNOB_2_PRESSED,
            31 => InputId::KNOB_3_PRESSED,
            32 => InputId::KNOB_4_PRESSED,
            33 => InputId::TOUCHSCREEN_ZONE_1_PRESSED,
            34 => InputId::TOUCHSCREEN_ZONE_2_PRESSED,
            35 => InputId::TOUCHSCREEN_ZONE_3_PRESSED,
            36 => InputId::TOUCHSCREEN_ZONE_4_PRESSED,
            37 => InputId::TOUCHSCREEN_SWIPED_LEFT,
            38 => InputId::TOUCHSCREEN_SWIPED_RIGHT,
            _ => InputId::UNRECOGNISED(v),
        }
    }
}

impl DisplayZone {
    /// The number that stands for this value on the wire.
    pub open spec fn spec_value(self) -> i32 {
        match self {
            DisplayZone::DISPLAY_ZONE_UNSPECIFIED => 0,
            DisplayZone::BUTTON_1 => 1,
            DisplayZone::BUTTON_2 => 2,
            DisplayZone::BUTTON_3 => 3,
            DisplayZone::BUTTON_4 => 4,
            DisplayZone::BUTTON_5 => 5,
            DisplayZone::BUTTON_6 => 6,
            DisplayZone::BUTTON_7 => 7,
            DisplayZone::BUTTON_8 => 8,
            DisplayZone::BUTTON_9 => 9,
            DisplayZone::BUTTON_10 => 10,
            DisplayZone::TOUCHSCREEN_1 => 11,
            DisplayZone::TOUCHSCREEN_2 => 12,
            DisplayZone::TOUCHSCREEN_3 => 13,
            DisplayZone::TOUCHSCREEN_4 => 14,
            DisplayZone::UNRECOGNISED(v) => v,
        }
    }

    pub fn value(self) -> (r: i32)
        ensures
            r == self.spec_value(),
    {
        match self {
            DisplayZone::DISPLAY_ZONE_UNSPECIFIED => 0,
            DisplayZone::BUTTON_1 => 1,
            DisplayZone::BUTTON_2 => 2,
            DisplayZone::BUTTON_3 => 3,
            DisplayZone::BUTTON_4 => 4,
            DisplayZone::BUTTON_5 => 5,
            DisplayZone::BUTTON_6 => 6,
            DisplayZone::BUTTON_7 => 7,
            DisplayZone::BUTTON_8 => 8,
            DisplayZone::BUTTON_9 => 9,
            DisplayZone::BUTTON_10 => 10,
            DisplayZone::TOUCHSCREEN_1 => 11,
            DisplayZone::TOUCHSCREEN_2 => 12,
            DisplayZone::TOUCHSCREEN_3 => 13,
            DisplayZone::TOUCHSCREEN_4 => 14,
            DisplayZone::UNRECOGNISED(v) => v,
        }
    }

    /// The value a wire number stands for; an unknown number is kept as `UNRECOGNISED`.
    pub fn from_value(v: i32) -> (r: DisplayZone)
        ensures
            r.spec_value() == v,
            (0 <= v <= 14) <==> !(r is UNRECOGNISED),
    {
        match v {
            0 => DisplayZone::DISPLAY_ZONE_UNSPECIFIED,
            1 => DisplayZone::BUTTON_1,
            2 => DisplayZone::BUTTON_2,
            3 => DisplayZone::BUTTON_3,
            4 => DisplayZone::BUTTON_4,
            5 => DisplayZone::BUTTON_5,
            6 => DisplayZone::BUTTON_6,
            7 => DisplayZone::BUTTON_7,
            8 => DisplayZone::BUTTON_8,
            9 => DisplayZone::BUTTON_9,
            10 => DisplayZone::BUTTON_10,
            11 => DisplayZone::TOUCHSCREEN_1,
            12 => DisplayZone::TOUCHSCREEN_2,
            13 => DisplayZone::TOUCHSCREEN_3,
            14 => DisplayZone::TOUCHSCREEN_4,
            _ => DisplayZone::UNRECOGNISED(v),
        }
    }
}

impl Key {
    /// The number that stands for this key on the wire. Keys are numbered
    /// from 1 in the order of the host key list (`KEY_HANGUL` is 54), with 0
    /// left unspecified; the keys this library clicks keep their numbers and
    /// every other number is an unsupported key.
    pub open spec fn spec_value(self) -> i32 {
        match self {
            Key::KEY_ADD => 1,
            Key::KEY_ALT => 2,
            Key::KEY_BACKSPACE => 3,
            Key::KEY_CAPS_LOCK => 7,
            Key::KEY_CONTROL => 10,
            Key::KEY_DECIMAL => 11,
            Key::KEY_DELETE => 12,
            Key::KEY_DIVIDE => 13,
            Key::KEY_DOWN_ARROW => 14,
            Key::KEY_END => 15,
            Key::KEY_ESCAPE => 16,
            Key::KEY_F1 => 18,
            Key::KEY_F2 => 19,
            Key::KEY_F3 => 20,
            Key::KEY_F4 => 21,
            Key::KEY_F5 => 22,
            Key::KEY_F6 => 23,
            Key::KEY_F7 => 24,
            Key::KEY_F8 => 25,
            Key::KEY_F9 => 26,
            Key::KEY_F10 => 27,
            Key::KEY_F11 => 28,
            Key::KEY_F12 => 29,
            Key::KEY_F13 => 30,
            Key::KEY_F14 => 31,
            Key::KEY_F15 => 32,
            Key::KEY_F16 => 33,
            Key::KEY_F17 => 34,
            Key::KEY_F18 => 35,
            Key::KEY_F19 => 36,
            Key::KEY_F20 => 37,
            Key::KEY_HELP => 56,
            Key::KEY_HOME => 57,
            Key::KEY_L_CONTROL => 60,
            Key::KEY_LEFT_ARROW => 61,
            Key::KEY_L_SHIFT => 64,
            Key::KEY_MEDIA_NEXT_TRACK => 65,
            Key::KEY_MEDIA_PLAY_PAUSE => 66,
            Key::KEY_MEDIA_PREV_TRACK => 67,
            Key::KEY_META => 69,
            Key::KEY_MULTIPLY => 71,
            Key::KEY_NUMPAD0 => 73,
            Key::KEY_NUMPAD1 => 74,
            Key::KEY_NUMPAD2 => 75,
            Key::KEY_NUMPAD3 => 76,
            Key::KEY_NUMPAD4 => 77,
            Key::KEY_NUMPAD5 => 78,
            Key::KEY_NUMPAD6 => 79,
            Key::KEY_NUMPAD7 => 80,
            Key::KEY_NUMPAD8 => 81,
            Key::KEY_NUMPAD9 => 82,
            Key::KEY_OPTION => 83,
            Key::KEY_PAGE_DOWN => 84,
            Key::KEY_PAGE_UP => 85,
            Key::KEY_R_CONTROL => 89,
            Key::KEY_RETURN => 91,
            Key::KEY_RIGHT_ARROW => 92,
            Key::KEY_R_SHIFT => 93,
            Key::KEY_SHIFT => 97,
            Key::KEY_SPACE => 99,
            Key::KEY_SUBTRACT => 100,
            Key::KEY_TAB => 103,
            Key::KEY_UP_ARROW => 105,
            Key::KEY_VOLUME_DOWN => 106,
            Key::KEY_VOLUME_MUTE => 107,
            Key::KEY_VOLUME_UP => 108,
            Key::KEY_UNICODE => 111,
            Key::KEY_OTHER => 112,
            Key::UNSUPPORTED(v) => v,
        }
    }

    pub fn value(self) -> (r: i32)
        ensures
            r == self.spec_value(),
    {
        match self {
            Key::KEY_ADD => 1,
            Key::KEY_ALT => 2,
            Key::KEY_BACKSPACE => 3,
            Key::KEY_CAPS_LOCK => 7,
            Key::KEY_CONTROL => 10,
            Key::KEY_DECIMAL => 11,
            Key::KEY_DELETE => 12,
            Key::KEY_DIVIDE => 13,
            Key::KEY_DOWN_ARROW => 14,
            Key::KEY_END => 15,
            Key::KEY_ESCAPE => 16,
            Key::KEY_F1 => 18,
            Key::KEY_F2 => 19,
            Key::KEY_F3 => 20,
            Key::KEY_F4 => 21,
            Key::KEY_F5 => 22,
            Key::KEY_F6 => 23,
            Key::KEY_F7 => 24,
            Key::KEY_F8 => 25,
            Key::KEY_F9 => 26,
            Key::KEY_F10 => 27,
            Key::KEY_F11 => 28,
            Key::KEY_F12 => 29,
            Key::KEY_F13 => 30,
            Key::KEY_F14 => 31,
            Key::KEY_F15 => 32,
            Key::KEY_F16 => 33,
            Key::KEY_F17 => 34,
            Key::KEY_F18 => 35,
            Key::KEY_F19 => 36,
            Key::KEY_F20 => 37,
            Key::KEY_HELP => 56,
            Key::KEY_HOME => 57,
            Key::KEY_L_CONTROL => 60,
            Key::KEY_LEFT_ARROW => 61,
            Key::KEY_L_SHIFT => 64,
            Key::KEY_MEDIA_NEXT_TRACK => 65,
            Key::KEY_MEDIA_PLAY_PAUSE => 66,
            Key::KEY_MEDIA_PREV_TRACK => 67,
            Key::KEY_META => 69,
            Key::KEY_MULTIPLY => 71,
            Key::KEY_NUMPAD0 => 73,
            Key::KEY_NUMPAD1 => 74,
            Key::KEY_NUMPAD2 => 75,
            Key::KEY_NUMPAD3 => 76,
            Key::KEY_NUMPAD4 => 77,
            Key::KEY_NUMPAD5 => 78,
            Key::KEY_NUMPAD6 => 79,
            Key::KEY_NUMPAD7 => 80,
            Key::KEY_NUMPAD8 => 81,
            Key::KEY_NUMPAD9 => 82,
            Key::KEY_OPTION => 83,
            Key::KEY_PAGE_DOWN => 84,
            Key::KEY_PAGE_UP => 85,
            Key::KEY_R_CONTROL => 89,
            Key::KEY_RETURN => 91,
            Key::KEY_RIGHT_ARROW => 92,
            Key::KEY_R_SHIFT => 93,
            Key::KEY_SHIFT => 97,
            Key::KEY_SPACE => 99,
            Key::KEY_SUBTRACT => 100,
            Key::KEY_TAB => 103,
            Key::KEY_UP_ARROW => 105,
            Key::KEY_VOLUME_DOWN => 106,
            Key::KEY_VOLUME_MUTE => 107,
            Key::KEY_VOLUME_UP => 108,
            Key::KEY_UNICODE => 111,
            Key::KEY_OTHER => 112,
            Key::UNSUPPORTED(v) => v,
        }
    }

    /// Whether `v` is the number of a key this library clicks.
    pub open spec fn is_supported_value(v: i32) -> bool {
        v == 1 || v == 2 || v == 3 || v == 7 || v == 10 || v == 11 || v == 12 || v == 13 || v == 14 || v == 15 || v == 16 || v == 18 || v == 19 || v == 20 || v == 21 || v == 22 || v == 23 || v == 24 || v == 25 || v == 26 || v == 27 || v == 28 || v == 29 || v == 30 || v == 31 || v == 32 || v == 33 || v == 34 || v == 35 || v == 36 || v == 37 || v == 56 || v == 57 || v == 60 || v == 61 || v == 64 || v == 65 || v == 66 || v == 67 || v == 69 || v == 71 || v == 73 || v == 74 || v == 75 || v == 76 || v == 77 || v == 78 || v == 79 || v == 80 || v == 81 || v == 82 || v == 83 || v == 84 || v == 85 || v == 89 || v == 91 || v == 92 || v == 93 || v == 97 || v == 99 || v == 100 || v == 103 || v == 105 || v == 106 || v == 107 || v == 108 || v == 111 || v == 112
    }

    /// The key a wire number stands for; any other number is an unsupported key.
    pub fn from_value(v: i32) -> (r: Key)
        ensures
            r.spec_value() == v,
            Key::is_supported_value(v) <==> !(r is UNSUPPORTED),
    {
        match v {
            1 => Key::KEY_ADD,
            2 => Key::KEY_ALT,
            3 => Key::KEY_BACKSPACE,
            7 => Key::KEY_CAPS_LOCK,
            10 => Key::KEY_CONTROL,
            11 => Key::KEY_DECIMAL,
            12 => Key::KEY_DELETE,
            13 => Key::KEY_DIVIDE,
            14 => Key::KEY_DOWN_ARROW,
            15 => Key::KEY_END,
            16 => Key::KEY_ESCAPE,
            18 => Key::KEY_F1,
            19 => Key::KEY_F2,
            20 => Key::KEY_F3,
            21 => Key::KEY_F4,
            22 => Key::KEY_F5,
            23 => Key::KEY_F6,
            24 => Key::KEY_F7,
            25 => Key::KEY_F8,
            26 => Key::KEY_F9,
            27 => Key::KEY_F10,
            28 => Key::KEY_F11,
            29 => Key::KEY_F12,
            30 => Key::KEY_F13,
            31 => Key::KEY_F14,
            32 => Key::KEY_F15,
            33 => Key::KEY_F16,
            34 => Key::KEY_F17,
            35 => Key::KEY_F18,
            36 => Key::KEY_F19,
            37 => Key::KEY_F20,
            56 => Key::KEY_HELP,
            57 => Key::KEY_HOME,
            60 => Key::KEY_L_CONTROL,
            61 => Key::KEY_LEFT_ARROW,
            64 => Key::KEY_L_SHIFT,
            65 => Key::KEY_MEDIA_NEXT_TRACK,
            66 => Key::KEY_MEDIA_PLAY_PAUSE,
            67 => Key::KEY_MEDIA_PREV_TRACK,
            69 => Key::KEY_META,
            71 => Key::KEY_MULTIPLY,
            73 => Key::KEY_NUMPAD0,
            74 => Key::KEY_NUMPAD1,
            75 => Key::KEY_NUMPAD2,
            76 => Key::KEY_NUMPAD3,
            77 => Key::KEY_NUMPAD4,
            78 => Key::KEY_NUMPAD5,
            79 => Key::KEY_NUMPAD6,
            80 => Key::KEY_NUMPAD7,
            81 => Key::KEY_NUMPAD8,
            82 => Key::KEY_NUMPAD9,
            83 => Key::KEY_OPTION,
            84 => Key::KEY_PAGE_DOWN,
            85 => Key::KEY_PAGE_UP,
            89 => Key::KEY_R_CONTROL,
            91 => Key::KEY_RETURN,
            92 => Key::KEY_RIGHT_ARROW,
            93 => Key::KEY_R_SHIFT,
            97 => Key::KEY_SHIFT,
            99 => Key::KEY_SPACE,
            100 => Key::KEY_SUBTRACT,
            103 => Key::KEY_TAB,
            105 => Key::KEY_UP_ARROW,
            106 => Key::KEY_VOLUME_DOWN,
            107 => Key::KEY_VOLUME_MUTE,
            108 => Key::KEY_VOLUME_UP,
            111 => Key::KEY_UNICODE,
            112 => Key::KEY_OTHER,
            _ => Key::UNSUPPORTED(v),
        }
    }
}

} // verus!
