use vstd::prelude::*;

verus! {

/// One of the fourteen small screens that can hold an image: the ten
/// buttons and the four touchscreen tiles. The background is not a zone.
///
/// | button1 | button2 | button3 | button4 | button5 |
/// | button6 | button7 | button8 | button9 | button10|
///
/// | touchscreen1 | touchscreen2 | touchscreen3 | touchscreen4 |
#[derive(Debug, Clone, Copy, PartialEq, Eq, Structural)]
pub enum DisplayZones {
    Button1,
    Button2,
    Button3,
    Button4,
    Button5,
    Button6,
    Button7,
    Button8,
    Button9,
    Button10,
    Touchscreen1,
    Touchscreen2,
    Touchscreen3,
    Touchscreen4,
}

/// The device's control surface: ten buttons in two rows of five, each
/// with its own screen, four touchscreen tiles in a row below them, and four
/// rotary knobs. Its parts are addressed through `DisplayZones` and
/// `InputActions`.
pub struct ControlPanel {}

/// Error for a byte that names no display zone.
#[derive(Debug, Clone, Copy, PartialEq, Eq, Structural)]
pub struct UnknownDisplayZone {
    pub value: u8,
}

/// The one-byte identifier the device uses for a zone.
pub open spec fn zone_id(zone: DisplayZones) -> u8 {
    match zone {
        DisplayZones::Button1 => 11,
        DisplayZones::Button2 => 12,
        DisplayZones::Button3 => 13,
        DisplayZones::Button4 => 14,
        DisplayZones::Button5 => 15,
        DisplayZones::Button6 => 6,
        DisplayZones::Button7 => 7,
        DisplayZones::Button8 => 8,
        DisplayZones::Button9 => 9,
        DisplayZones::Button10 => 10,
        DisplayZones::Touchscreen1 => 1,
        DisplayZones::Touchscreen2 => 2,
        DisplayZones::Touchscreen3 => 3,
        DisplayZones::Touchscreen4 => 4,
    }
}

/// The bytes that name a zone: 1 to 4 and 6 to 15.
pub open spec fn is_zone_id(value: u8) -> bool {
    (1 <= value <= 4) || (6 <= value <= 15)
}

impl DisplayZones {
    /// The zone's wire identifier.
    pub fn to_wire(self) -> (r: u8)
        ensures
            r == zone_id(self),
    {
        match self {
            DisplayZones::Button1 => 11,
            DisplayZones::Button2 => 12,
            DisplayZones::Button3 => 13,
            DisplayZones::Button4 => 14,
            DisplayZones::Button5 => 15,
            DisplayZones::Button6 => 6,
            DisplayZones::Button7 => 7,
            DisplayZones::Button8 => 8,
            DisplayZones::Button9 => 9,
            DisplayZones::Button10 => 10,
            DisplayZones::Touchscreen1 => 1,
            DisplayZones::Touchscreen2 => 2,
            DisplayZones::Touchscreen3 => 3,
            DisplayZones::Touchscreen4 => 4,
        }
    }

    /// The zone whose wire identifier is `value`, or an error when there is none.
    pub fn try_from(value: u8) -> (r: Result<DisplayZones, UnknownDisplayZone>)
        ensures
            r is Ok <==> is_zone_id(value),
            r matches Ok(z) ==> zone_id(z) == value,
            r matches Err(e) ==> e.value == value,
    {
        match value {
            11 => Ok(DisplayZones::Button1),
            12 => Ok(DisplayZones::Button2),
            13 => Ok(DisplayZones::Button3),
            14 => Ok(DisplayZones::Button4),
            15 => Ok(DisplayZones::Button5),
            6 => Ok(DisplayZones::Button6),
            7 => Ok(DisplayZones::Button7),
            8 => Ok(DisplayZones::Button8),
            9 => Ok(DisplayZones::Button9),
            10 => Ok(DisplayZones::Button10),
            1 => Ok(DisplayZones::Touchscreen1),
            2 => Ok(DisplayZones::Touchscreen2),
            3 => Ok(DisplayZones::Touchscreen3),
            4 => Ok(DisplayZones::Touchscreen4),
            _ => Err(UnknownDisplayZone { value }),
        }
    }
}

/// The zone identifiers form a bijection between the fourteen zones and the
/// bytes 1 to 4 and 6 to 15: distinct zones get distinct bytes, every such
/// byte names a zone, and decoding a zone's byte gives the zone back.
pub proof fn lemma_zone_id_bijective()
    ensures
        forall|a: DisplayZones, b: DisplayZones| zone_id(a) == zone_id(b) ==> a == b,
        forall|z: DisplayZones| #[trigger] is_zone_id(zone_id(z)),
        forall|v: u8| is_zone_id(v) ==> exists|z: DisplayZones| zone_id(z) == v,
{
    assert forall|v: u8| is_zone_id(v) implies exists|z: DisplayZones| zone_id(z) == v by {
        if v == 1 { assert(zone_id(DisplayZones::Touchscreen1) == v); }
        else if v == 2 { assert(zone_id(DisplayZones::Touchscreen2) == v); }
        else if v == 3 { assert(zone_id(DisplayZones::Touchscreen3) == v); }
        else if v == 4 { assert(zone_id(DisplayZones::Touchscreen4) == v); }
        else if v == 6 { assert(zone_id(DisplayZones::Button6) == v); }
        else if v == 7 { assert(zone_id(DisplayZones::Button7) == v); }
        else if v == 8 { assert(zone_id(DisplayZones::Button8) == v); }
        else if v == 9 { assert(zone_id(DisplayZones::Button9) == v); }
        else if v == 10 { assert(zone_id(DisplayZones::Button10) == v); }
        else if v == 11 { assert(zone_id(DisplayZones::Button1) == v); }
        else if v == 12 { assert(zone_id(DisplayZones::Button2) == v); }
        else if v == 13 { assert(zone_id(DisplayZones::Button3) == v); }
        else if v == 14 { assert(zone_id(DisplayZones::Button4) == v); }
        else { assert(zone_id(DisplayZones::Button5) == v); }
    }
}

} // verus!
