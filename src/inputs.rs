use vstd::prelude::*;

verus! {

/// Length of an input report.
pub const BUFFER_SIZE_13: usize = 13;

/// An edge of one of the ten buttons.
///
/// | button1 | button2 | button3 | button4 | button5 |
/// | button6 | button7 | button8 | button9 | button10|
#[derive(Debug, Clone, Copy, PartialEq, Eq, Hash, Structural)]
pub enum ButtonActions {
    Button1Pressed,
    Button2Pressed,
    Button3Pressed,
    Button4Pressed,
    Button5Pressed,
    Button6Pressed,
    Button7Pressed,
    Button8Pressed,
    Button9Pressed,
    Button10Pressed,
    Button1Released,
    Button2Released,
    Button3Released,
    Button4Released,
    Button5Released,
    Button6Released,
    Button7Released,
    Button8Released,
    Button9Released,
    Button10Released,
}

impl ButtonActions {
    /// The two bytes that identify this event in an input report.
    pub open spec fn code(self) -> (u8, u8) {
        match self {
            ButtonActions::Button1Pressed => (0x01u8, 1u8),
            ButtonActions::Button2Pressed => (0x02u8, 1u8),
            ButtonActions::Button3Pressed => (0x03u8, 1u8),
            ButtonActions::Button4Pressed => (0x04u8, 1u8),
            ButtonActions::Button5Pressed => (0x05u8, 1u8),
            ButtonActions::Button6Pressed => (0x06u8, 1u8),
            ButtonActions::Button7Pressed => (0x07u8, 1u8),
            ButtonActions::Button8Pressed => (0x08u8, 1u8),
            ButtonActions::Button9Pressed => (0x09u8, 1u8),
            ButtonActions::Button10Pressed => (0x0au8, 1u8),
            ButtonActions::Button1Released => (0x01u8, 0u8),
            ButtonActions::Button2Released => (0x02u8, 0u8),
            ButtonActions::Button3Released => (0x03u8, 0u8),
            ButtonActions::Button4Released => (0x04u8, 0u8),
            ButtonActions::Button5Released => (0x05u8, 0u8),
            ButtonActions::Button6Released => (0x06u8, 0u8),
            ButtonActions::Button7Released => (0x07u8, 0u8),
            ButtonActions::Button8Released => (0x08u8, 0u8),
            ButtonActions::Button9Released => (0x09u8, 0u8),
            ButtonActions::Button10Released => (0x0au8, 0u8),
        }
    }
}

/// A turn or a press of one of the four knobs, numbered left to right.
#[derive(Debug, Clone, Copy, PartialEq, Eq, Hash, Structural)]
pub enum KnobActions {
    Knob1Clockwise,
    Knob2Clockwise,
    Knob3Clockwise,
    Knob4Clockwise,
    Knob1CounterClockwise,
    Knob2CounterClockwise,
    Knob3CounterClockwise,
    Knob4CounterClockwise,
    Knob1Pressed,
    Knob2Pressed,
    Knob3Pressed,
    Knob4Pressed,
}

impl KnobActions {
    /// The two bytes that identify this event in an input report.
    pub open spec fn code(self) -> (u8, u8) {
        match self {
            KnobActions::Knob1Clockwise => (0xa1u8, 0u8),
            KnobActions::Knob2Clockwise => (0x51u8, 0u8),
            KnobActions::Knob3Clockwise => (0x91u8, 0u8),
            KnobActions::Knob4Clockwise => (0x71u8, 0u8),
            KnobActions::Knob1CounterClockwise => (0xa0u8, 0u8),
            KnobActions::Knob2CounterClockwise => (0x50u8, 0u8),
            KnobActions::Knob3CounterClockwise => (0x90u8, 0u8),
            KnobActions::Knob4CounterClockwise => (0x70u8, 0u8),
            KnobActions::Knob1Pressed => (0x37u8, 1u8),
            KnobActions::Knob2Pressed => (0x35u8, 1u8),
            KnobActions::Knob3Pressed => (0x33u8, 1u8),
            KnobActions::Knob4Pressed => (0x36u8, 1u8),
        }
    }
}

/// A press of one of the four touchscreen zones, or a swipe across it.
#[derive(Debug, Clone, Copy, PartialEq, Eq, Hash, Structural)]
pub enum TouchscreenAction {
    Zone1Pressed,
    Zone2Pressed,
    Zone3Pressed,
    Zone4Pressed,
    SwipedLeft,
    SwipedRight,
}

impl TouchscreenAction {
    /// The two bytes that identify this event in an input report.
    pub open spec fn code(self) -> (u8, u8) {
        match self {
            TouchscreenAction::Zone1Pressed => (0x40u8, 0u8),
            TouchscreenAction::Zone2Pressed => (0x41u8, 0u8),
            TouchscreenAction::Zone3Pressed => (0x42u8, 0u8),
            TouchscreenAction::Zone4Pressed => (0x43u8, 0u8),
            TouchscreenAction::SwipedLeft => (0x39u8, 0u8),
            TouchscreenAction::SwipedRight => (0x38u8, 0u8),
        }
    }
}

/// An event reported by the device.
#[derive(Debug, Clone, Copy, PartialEq, Eq, Hash, Structural)]
pub enum InputActions {
    Button(ButtonActions),
    Knob(KnobActions),
    Touchscreen(TouchscreenAction),
    Unknown,
}

/// `ACK\0\0OK\0\0`: the first nine bytes of every known input report.
pub open spec fn ack_prefix() -> Seq<u8> {
    seq![0x41u8, 0x43, 0x4B, 0, 0, 0x4F, 0x4B, 0, 0]
}

/// The report whose two code bytes are `code`.
pub open spec fn report_with_code(code: (u8, u8)) -> Seq<u8> {
    ack_prefix() + seq![code.0, code.1, 0u8, 0u8]
}

impl InputActions {
    /// The code bytes of a known event; `Unknown` has none.
    pub open spec fn code(self) -> Option<(u8, u8)> {
        match self {
            InputActions::Button(b) => Some(b.code()),
            InputActions::Knob(k) => Some(k.code()),
            InputActions::Touchscreen(t) => Some(t.code()),
            InputActions::Unknown => None,
        }
    }

    /// The event a 13-byte report stands for: the known event whose report it
    /// is, else `Unknown`.
    pub open spec fn decoded(report: Seq<u8>) -> InputActions {
        if exists|a: InputActions| #[trigger] a.code() is Some && report == report_with_code(a.code()->0) {
            choose|a: InputActions| #[trigger] a.code() is Some && report == report_with_code(a.code()->0)
        } else {
            InputActions::Unknown
        }
    }

    /// The identifier under which an event's binding is stored; 0 for `Unknown`.
    pub open spec fn spec_id(self) -> u8 {
        match self {

            InputActions::Button(ButtonActions::Button1Pressed) => 1,
            InputActions::Button(ButtonActions::Button2Pressed) => 2,
            InputActions::Button(ButtonActions::Button3Pressed) => 3,
            InputActions::Button(ButtonActions::Button4Pressed) => 4,
            InputActions::Button(ButtonActions::Button5Pressed) => 5,
            InputActions::Button(ButtonActions::Button6Pressed) => 6,
            InputActions::Button(ButtonActions::Button7Pressed) => 7,
            InputActions::Button(ButtonActions::Button8Pressed) => 8,
            InputActions::Button(ButtonActions::Button9Pressed) => 9,
            InputActions::Button(ButtonActions::Button10Pressed) => 10,
            InputActions::Button(ButtonActions::Button1Released) => 11,
            InputActions::Button(ButtonActions::Button2Released) => 12,
            InputActions::Button(ButtonActions::Button3Released) => 13,
            InputActions::Button(ButtonActions::Button4Released) => 14,
            InputActions::Button(ButtonActions::Button5Released) => 15,
            InputActions::Button(ButtonActions::Button6Released) => 16,
            InputActions::Button(ButtonActions::Button7Released) => 17,
            InputActions::Button(ButtonActions::Button8Released) => 18,
            InputActions::Button(ButtonActions::Button9Released) => 19,
            InputActions::Button(ButtonActions::Button10Released) => 20,
            InputActions::Knob(KnobActions::Knob1Clockwise) => 21,
            InputActions::Knob(KnobActions::Knob2Clockwise) => 22,
            InputActions::Knob(KnobActions::Knob3Clockwise) => 23,
            InputActions::Knob(KnobActions::Knob4Clockwise) => 24,
            InputActions::Knob(KnobActions::Knob1CounterClockwise) => 25,
            InputActions::Knob(KnobActions::Knob2CounterClockwise) => 26,
            InputActions::Knob(KnobActions::Knob3CounterClockwise) => 27,
            InputActions::Knob(KnobActions::Knob4CounterClockwise) => 28,
            InputActions::Knob(KnobActions::Knob1Pressed) => 29,
            InputActions::Knob(KnobActions::Knob2Pressed) => 30,
            InputActions::Knob(KnobActions::Knob3Pressed) => 31,
            InputActions::Knob(KnobActions::Knob4Pressed) => 32,
            InputActions::Touchscreen(TouchscreenAction::Zone1Pressed) => 33,
            InputActions::Touchscreen(TouchscreenAction::Zone2Pressed) => 34,
            InputActions::Touchscreen(TouchscreenAction::Zone3Pressed) => 35,
            InputActions::Touchscreen(TouchscreenAction::Zone4Pressed) => 36,
            InputActions::Touchscreen(TouchscreenAction::SwipedLeft) => 37,
            InputActions::Touchscreen(TouchscreenAction::SwipedRight) => 38,
            InputActions::Unknown => 0,
        }
    }

    /// The stored identifier of this event.
    pub fn to_id(self) -> (r: u8)
        ensures
            r == self.spec_id(),
    {
        match self {

            InputActions::Button(ButtonActions::Button1Pressed) => 1,
            InputActions::Button(ButtonActions::Button2Pressed) => 2,
            InputActions::Button(ButtonActions::Button3Pressed) => 3,
            InputActions::Button(ButtonActions::Button4Pressed) => 4,
            InputActions::Button(ButtonActions::Button5Pressed) => 5,
            InputActions::Button(ButtonActions::Button6Pressed) => 6,
            InputActions::Button(ButtonActions::Button7Pressed) => 7,
            InputActions::Button(ButtonActions::Button8Pressed) => 8,
            InputActions::Button(ButtonActions::Button9Pressed) => 9,
            InputActions::Button(ButtonActions::Button10Pressed) => 10,
            InputActions::Button(ButtonActions::Button1Released) => 11,
            InputActions::Button(ButtonActions::Button2Released) => 12,
            InputActions::Button(ButtonActions::Button3Released) => 13,
            InputActions::Button(ButtonActions::Button4Released) => 14,
            InputActions::Button(ButtonActions::Button5Released) => 15,
            InputActions::Button(ButtonActions::Button6Released) => 16,
            InputActions::Button(ButtonActions::Button7Released) => 17,
            InputActions::Button(ButtonActions::Button8Released) => 18,
            InputActions::Button(ButtonActions::Button9Released) => 19,
            InputActions::Button(ButtonActions::Button10Released) => 20,
            InputActions::Knob(KnobActions::Knob1Clockwise) => 21,
            InputActions::Knob(KnobActions::Knob2Clockwise) => 22,
            InputActions::Knob(KnobActions::Knob3Clockwise) => 23,
            InputActions::Knob(KnobActions::Knob4Clockwise) => 24,
            InputActions::Knob(KnobActions::Knob1CounterClockwise) => 25,
            InputActions::Knob(KnobActions::Knob2CounterClockwise) => 26,
            InputActions::Knob(KnobActions::Knob3CounterClockwise) => 27,
            InputActions::Knob(KnobActions::Knob4CounterClockwise) => 28,
            InputActions::Knob(KnobActions::Knob1Pressed) => 29,
            InputActions::Knob(KnobActions::Knob2Pressed) => 30,
            InputActions::Knob(KnobActions::Knob3Pressed) => 31,
            InputActions::Knob(KnobActions::Knob4Pressed) => 32,
            InputActions::Touchscreen(TouchscreenAction::Zone1Pressed) => 33,
            InputActions::Touchscreen(TouchscreenAction::Zone2Pressed) => 34,
            InputActions::Touchscreen(TouchscreenAction::Zone3Pressed) => 35,
            InputActions::Touchscreen(TouchscreenAction::Zone4Pressed) => 36,
            InputActions::Touchscreen(TouchscreenAction::SwipedLeft) => 37,
            InputActions::Touchscreen(TouchscreenAction::SwipedRight) => 38,
            InputActions::Unknown => 0,
        }
    }

    /// The event stored under `id`; an identifier that names no event gives `Unknown`.
    /// The event stored under `id`; `Unknown` where no event has that identifier.
    pub open spec fn spec_from_id(id: u8) -> InputActions {
        match id {

            1 => InputActions::Button(ButtonActions::Button1Pressed),
            2 => InputActions::Button(ButtonActions::Button2Pressed),
            3 => InputActions::Button(ButtonActions::Button3Pressed),
            4 => InputActions::Button(ButtonActions::Button4Pressed),
            5 => InputActions::Button(ButtonActions::Button5Pressed),
            6 => InputActions::Button(ButtonActions::Button6Pressed),
            7 => InputActions::Button(ButtonActions::Button7Pressed),
            8 => InputActions::Button(ButtonActions::Button8Pressed),
            9 => InputActions::Button(ButtonActions::Button9Pressed),
            10 => InputActions::Button(ButtonActions::Button10Pressed),
            11 => InputActions::Button(ButtonActions::Button1Released),
            12 => InputActions::Button(ButtonActions::Button2Released),
            13 => InputActions::Button(ButtonActions::Button3Released),
            14 => InputActions::Button(ButtonActions::Button4Released),
            15 => InputActions::Button(ButtonActions::Button5Released),
            16 => InputActions::Button(ButtonActions::Button6Released),
            17 => InputActions::Button(ButtonActions::Button7Released),
            18 => InputActions::Button(ButtonActions::Button8Released),
            19 => InputActions::Button(ButtonActions::Button9Released),
            20 => InputActions::Button(ButtonActions::Button10Released),
            21 => InputActions::Knob(KnobActions::Knob1Clockwise),
            22 => InputActions::Knob(KnobActions::Knob2Clockwise),
            23 => InputActions::Knob(KnobActions::Knob3Clockwise),
            24 => InputActions::Knob(KnobActions::Knob4Clockwise),
            25 => InputActions::Knob(KnobActions::Knob1CounterClockwise),
            26 => InputActions::Knob(KnobActions::Knob2CounterClockwise),
            27 => InputActions::Knob(KnobActions::Knob3CounterClockwise),
            28 => InputActions::Knob(KnobActions::Knob4CounterClockwise),
            29 => InputActions::Knob(KnobActions::Knob1Pressed),
            30 => InputActions::Knob(KnobActions::Knob2Pressed),
            31 => InputActions::Knob(KnobActions::Knob3Pressed),
            32 => InputActions::Knob(KnobActions::Knob4Pressed),
            33 => InputActions::Touchscreen(TouchscreenAction::Zone1Pressed),
            34 => InputActions::Touchscreen(TouchscreenAction::Zone2Pressed),
            35 => InputActions::Touchscreen(TouchscreenAction::Zone3Pressed),
            36 => InputActions::Touchscreen(TouchscreenAction::Zone4Pressed),
            37 => InputActions::Touchscreen(TouchscreenAction::SwipedLeft),
            38 => InputActions::Touchscreen(TouchscreenAction::SwipedRight),
            _ => InputActions::Unknown,
        }
    }

    pub fn from_id(id: u8) -> (r: InputActions)
        ensures
            r == InputActions::spec_from_id(id),
            r.spec_id() == id || (r == InputActions::Unknown && forall|a: InputActions| a.spec_id() != id),
    {
        match id {

            1 => InputActions::Button(ButtonActions::Button1Pressed),
            2 => InputActions::Button(ButtonActions::Button2Pressed),
            3 => InputActions::Button(ButtonActions::Button3Pressed),
            4 => InputActions::Button(ButtonActions::Button4Pressed),
            5 => InputActions::Button(ButtonActions::Button5Pressed),
            6 => InputActions::Button(ButtonActions::Button6Pressed),
            7 => InputActions::Button(ButtonActions::Button7Pressed),
            8 => InputActions::Button(ButtonActions::Button8Pressed),
            9 => InputActions::Button(ButtonActions::Button9Pressed),
            10 => InputActions::Button(ButtonActions::Button10Pressed),
            11 => InputActions::Button(ButtonActions::Button1Released),
            12 => InputActions::Button(ButtonActions::Button2Released),
            13 => InputActions::Button(ButtonActions::Button3Released),
            14 => InputActions::Button(ButtonActions::Button4Released),
            15 => InputActions::Button(ButtonActions::Button5Released),
            16 => InputActions::Button(ButtonActions::Button6Released),
            17 => InputActions::Button(ButtonActions::Button7Released),
            18 => InputActions::Button(ButtonActions::Button8Released),
            19 => InputActions::Button(ButtonActions::Button9Released),
            20 => InputActions::Button(ButtonActions::Button10Released),
            21 => InputActions::Knob(KnobActions::Knob1Clockwise),
            22 => InputActions::Knob(KnobActions::Knob2Clockwise),
            23 => InputActions::Knob(KnobActions::Knob3Clockwise),
            24 => InputActions::Knob(KnobActions::Knob4Clockwise),
            25 => InputActions::Knob(KnobActions::Knob1CounterClockwise),
            26 => InputActions::Knob(KnobActions::Knob2CounterClockwise),
            27 => InputActions::Knob(KnobActions::Knob3CounterClockwise),
            28 => InputActions::Knob(KnobActions::Knob4CounterClockwise),
            29 => InputActions::Knob(KnobActions::Knob1Pressed),
            30 => InputActions::Knob(KnobActions::Knob2Pressed),
            31 => InputActions::Knob(KnobActions::Knob3Pressed),
            32 => InputActions::Knob(KnobActions::Knob4Pressed),
            33 => InputActions::Touchscreen(TouchscreenAction::Zone1Pressed),
            34 => InputActions::Touchscreen(TouchscreenAction::Zone2Pressed),
            35 => InputActions::Touchscreen(TouchscreenAction::Zone3Pressed),
            36 => InputActions::Touchscreen(TouchscreenAction::Zone4Pressed),
            37 => InputActions::Touchscreen(TouchscreenAction::SwipedLeft),
            38 => InputActions::Touchscreen(TouchscreenAction::SwipedRight),
            _ => InputActions::Unknown,
        }
    }

    /// Decodes a 13-byte input report by comparing it against the table of
    /// known reports. Anything else, the all-zero report included, is `Unknown`.
    pub fn from(value: [u8; BUFFER_SIZE_13]) -> (r: InputActions)
        ensures
            r == InputActions::decoded(value@),
    {
        let known_shape = value[0] == 0x41 && value[1] == 0x43 && value[2] == 0x4B && value[3] == 0
            && value[4] == 0 && value[5] == 0x4F && value[6] == 0x4B && value[7] == 0 && value[8]
            == 0 && value[11] == 0 && value[12] == 0;
        let r = if !known_shape {
            InputActions::Unknown
        } else {
            match (value[9], value[10]) {

                (0x01, 1) => InputActions::Button(ButtonActions::Button1Pressed),
                (0x02, 1) => InputActions::Button(ButtonActions::Button2Pressed),
                (0x03, 1) => InputActions::Button(ButtonActions::Button3Pressed),
                (0x04, 1) => InputActions::Button(ButtonActions::Button4Pressed),
                (0x05, 1) => InputActions::Button(ButtonActions::Button5Pressed),
                (0x06, 1) => InputActions::Button(ButtonActions::Button6Pressed),
                (0x07, 1) => InputActions::Button(ButtonActions::Button7Pressed),
                (0x08, 1) => InputActions::Button(ButtonActions::Button8Pressed),
                (0x09, 1) => InputActions::Button(ButtonActions::Button9Pressed),
                (0x0a, 1) => InputActions::Button(ButtonActions::Button10Pressed),
                (0x01, 0) => InputActions::Button(ButtonActions::Button1Released),
                (0x02, 0) => InputActions::Button(ButtonActions::Button2Released),
                (0x03, 0) => InputActions::Button(ButtonActions::Button3Released),
                (0x04, 0) => InputActions::Button(ButtonActions::Button4Released),
                (0x05, 0) => InputActions::Button(ButtonActions::Button5Released),
                (0x06, 0) => InputActions::Button(ButtonActions::Button6Released),
                (0x07, 0) => InputActions::Button(ButtonActions::Button7Released),
                (0x08, 0) => InputActions::Button(ButtonActions::Button8Released),
                (0x09, 0) => InputActions::Button(ButtonActions::Button9Released),
                (0x0a, 0) => InputActions::Button(ButtonActions::Button10Released),
                (0xa1, 0) => InputActions::Knob(KnobActions::Knob1Clockwise),
                (0x51, 0) => InputActions::Knob(KnobActions::Knob2Clockwise),
                (0x91, 0) => InputActions::Knob(KnobActions::Knob3Clockwise),
                (0x71, 0) => InputActions::Knob(KnobActions::Knob4Clockwise),
                (0xa0, 0) => InputActions::Knob(KnobActions::Knob1CounterClockwise),
                (0x50, 0) => InputActions::Knob(KnobActions::Knob2CounterClockwise),
                (0x90, 0) => InputActions::Knob(KnobActions::Knob3CounterClockwise),
                (0x70, 0) => InputActions::Knob(KnobActions::Knob4CounterClockwise),
                (0x37, 1) => InputActions::Knob(KnobActions::Knob1Pressed),
                (0x35, 1) => InputActions::Knob(KnobActions::Knob2Pressed),
                (0x33, 1) => InputActions::Knob(KnobActions::Knob3Pressed),
                (0x36, 1) => InputActions::Knob(KnobActions::Knob4Pressed),
                (0x40, 0) => InputActions::Touchscreen(TouchscreenAction::Zone1Pressed),
                (0x41, 0) => InputActions::Touchscreen(TouchscreenAction::Zone2Pressed),
                (0x42, 0) => InputActions::Touchscreen(TouchscreenAction::Zone3Pressed),
                (0x43, 0) => InputActions::Touchscreen(TouchscreenAction::Zone4Pressed),
                (0x39, 0) => InputActions::Touchscreen(TouchscreenAction::SwipedLeft),
                (0x38, 0) => InputActions::Touchscreen(TouchscreenAction::SwipedRight),
                _ => InputActions::Unknown,
            }
        };
        proof {
            lemma_report_codes_distinct();
            if r != InputActions::Unknown {
                assert(value@ =~= report_with_code(r.code()->0));
            }
            if r == InputActions::Unknown {
                assert forall|a: InputActions| #[trigger] a.code() is Some implies value@ != report_with_code(a.code()->0) by {
                    if value@ == report_with_code(a.code()->0) {
                        let c = a.code()->0;
                        assert(value@[9] == c.0 && value@[10] == c.1);
                    }
                }
            }
        }
        r
    }
}

/// Distinct known events have distinct code bytes, so a report stands for
/// at most one of them.
pub proof fn lemma_report_codes_distinct()
    ensures
        forall|a: InputActions, b: InputActions|
            #[trigger] a.code() is Some && #[trigger] b.code() is Some && a.code() == b.code() ==> a == b,
{
}

/// Distinct events are stored under distinct identifiers, and no known event
/// shares the identifier of `Unknown`.
pub proof fn lemma_id_injective()
    ensures
        forall|a: InputActions, b: InputActions| #[trigger] a.spec_id() == #[trigger] b.spec_id() ==> a == b,
{
}

/// Reading back the identifier of an event gives the event.
pub proof fn lemma_id_round_trip(a: InputActions)
    ensures
        InputActions::spec_from_id(a.spec_id()) == a,
{
}

/// Each report of the table decodes to its own event; any other report,
/// the all-zero one included, decodes to `Unknown`.
pub proof fn lemma_decode_table(a: InputActions, report: Seq<u8>)
    ensures
        a.code() is Some ==> InputActions::decoded(report_with_code(a.code()->0)) == a,
        (forall|b: InputActions| #[trigger] b.code() is Some ==> report != report_with_code(b.code()->0))
            ==> InputActions::decoded(report) == InputActions::Unknown,
{
    lemma_report_codes_distinct();
    if a.code() is Some {
        let r = report_with_code(a.code()->0);
        assert(exists|x: InputActions| #[trigger] x.code() is Some && r == report_with_code(x.code()->0));
        let c = choose|x: InputActions| #[trigger] x.code() is Some && r == report_with_code(x.code()->0);
        let rc = report_with_code(c.code()->0);
        assert(r[9] == rc[9] && r[10] == rc[10]);
    }
}

} // verus!
