use vstd::prelude::*;
use crate::display_zones::DisplayZones;
use crate::inputs::InputActions;
use crate::keys::Keystroke;

verus! {

/// A copy of a keystroke sequence.
pub fn copy_keystrokes(v: &Vec<Keystroke>) -> (r: Vec<Keystroke>)
    ensures
        r@ == v@,
{
    let mut out: Vec<Keystroke> = Vec::new();
    let mut i: usize = 0;
    while i < v.len()
        invariant
            i <= v@.len(),
            out@ == v@.take(i as int),
        decreases v@.len() - i,
    {
        out.push(v[i]);
        i = i + 1;
        assert(out@ =~= v@.take(i as int));
    }
    assert(v@.take(v@.len() as int) =~= v@);
    out
}

/// Whether two keystroke sequences are equal.
pub fn same_keystrokes(a: &Vec<Keystroke>, b: &Vec<Keystroke>) -> (r: bool)
    ensures
        r == (a@ == b@),
{
    if a.len() != b.len() {
        return false;
    }
    let mut i: usize = 0;
    while i < a.len()
        invariant
            a@.len() == b@.len(),
            i <= a@.len(),
            forall|j: int| 0 <= j < i ==> a@[j] == b@[j],
        decreases a@.len() - i,
    {
        if a[i] != b[i] {
            return false;
        }
        i = i + 1;
    }
    assert(a@ =~= b@);
    true
}

/// A binding as the store keeps it: an input event and the keystrokes it
/// clicks, in order.
#[derive(Debug, Clone)]
pub struct InputMapping {
    pub input: InputActions,
    pub actions: Vec<Keystroke>,
}

impl InputMapping {
    pub fn new(input: InputActions, actions: Vec<Keystroke>) -> (r: Self)
        ensures
            r.input == input,
            r.actions@ == actions@,
    {
        Self { input, actions }
    }

    pub fn input(&self) -> (r: InputActions)
        ensures
            r == self.input,
    {
        self.input
    }

    /// A copy of this binding.
    pub fn clone_mapping(&self) -> (r: Self)
        ensures
            r.input == self.input,
            r.actions@ == self.actions@,
    {
        InputMapping { input: self.input, actions: copy_keystrokes(&self.actions) }
    }

    pub fn actions(&self) -> (r: Vec<Keystroke>)
        ensures
            r@ == self.actions@,
    {
        copy_keystrokes(&self.actions)
    }
}

impl PartialEq for InputMapping {
    fn eq(&self, other: &InputMapping) -> (r: bool) {
        self.input == other.input && same_keystrokes(&self.actions, &other.actions)
    }
}

impl vstd::std_specs::cmp::PartialEqSpecImpl for InputMapping {
    open spec fn obeys_eq_spec() -> bool {
        true
    }

    open spec fn eq_spec(&self, other: &InputMapping) -> bool {
        self.input == other.input && self.actions@ == other.actions@
    }
}

/// An image bound to a display zone, by the path of its file.
#[derive(Debug, Clone)]
pub struct ImageMapping {
    pub display_zone: DisplayZones,
    pub image_path: String,
}

impl PartialEq for ImageMapping {
    fn eq(&self, other: &ImageMapping) -> (r: bool) {
        self.display_zone == other.display_zone && self.image_path == other.image_path
    }
}

impl vstd::std_specs::cmp::PartialEqSpecImpl for ImageMapping {
    open spec fn obeys_eq_spec() -> bool {
        true
    }

    open spec fn eq_spec(&self, other: &ImageMapping) -> bool {
        self.display_zone == other.display_zone && self.image_path@ == other.image_path@
    }
}

} // verus!
