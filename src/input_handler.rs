use vstd::prelude::*;
use crate::database::models;
use crate::database::models::copy_keystrokes;
use crate::device::InputHandler;
use crate::inputs::{ButtonActions, InputActions, KnobActions, TouchscreenAction};
use crate::keys::Keystroke;

verus! {

/// Clicks keystrokes on the host. Implementations hold whatever injects
/// the key events.
pub trait KeyActionExecutor {
    /// Clicks each keystroke, in order.
    fn execute(&self, actions: &[Keystroke]) -> Result<(), String>;
}

/// The bindings that `entries` makes, a later entry for an event replacing
/// an earlier one.
pub open spec fn bindings_of(entries: Seq<(InputActions, Vec<Keystroke>)>) -> Map<
    InputActions,
    Seq<Keystroke>,
>
    decreases entries.len(),
{
    if entries.len() == 0 {
        Map::empty()
    } else {
        bindings_of(entries.drop_last()).insert(entries.last().0, entries.last().1@)
    }
}

/// The bindings kept in memory, from input event to the keystrokes it
/// clicks; this is what input handling consults.
pub struct InputMapping {
    pub entries: Vec<(InputActions, Vec<Keystroke>)>,
}

proof fn lemma_bindings_suffix_free(s: Seq<(InputActions, Vec<Keystroke>)>, i: int, k: InputActions)
    requires
        0 <= i <= s.len(),
        forall|j: int| i <= j < s.len() ==> s[j].0 != k,
    ensures
        bindings_of(s).contains_key(k) == bindings_of(s.take(i)).contains_key(k),
        bindings_of(s).contains_key(k) ==> bindings_of(s)[k] == bindings_of(s.take(i))[k],
    decreases s.len() - i,
{
    if i == s.len() {
        assert(s.take(i) =~= s);
    } else {
        lemma_bindings_suffix_free(s.drop_last(), i, k);
        assert(s.drop_last().take(i) =~= s.take(i));
    }
}

impl InputMapping {
    /// The bindings, by event.
    pub open spec fn view(&self) -> Map<InputActions, Seq<Keystroke>> {
        bindings_of(self.entries@)
    }

    /// The default bindings: the first button lowers the volume.
    pub fn default() -> (r: Self)
        ensures
            r.view() == map![InputActions::Button(ButtonActions::Button1Pressed) => seq![Keystroke::VolumeDown]],
    {
        let mut keys: Vec<Keystroke> = Vec::new();
        keys.push(Keystroke::VolumeDown);
        let mut entries: Vec<(InputActions, Vec<Keystroke>)> = Vec::new();
        entries.push((InputActions::Button(ButtonActions::Button1Pressed), keys));
        let r = Self { entries };
        assert(r.entries@.drop_last() =~= Seq::<(InputActions, Vec<Keystroke>)>::empty());
        assert(bindings_of(r.entries@.drop_last()) == Map::<InputActions, Seq<Keystroke>>::empty());
        assert(r.entries@.last().1@ =~= seq![Keystroke::VolumeDown]);
        assert(r.view() =~= map![InputActions::Button(ButtonActions::Button1Pressed) => seq![Keystroke::VolumeDown]]);
        r
    }

    /// The bindings of stored rows, one per row; where two rows bind the same
    /// event the later one wins.
    pub fn from_mappings(value: Vec<models::InputMapping>) -> (r: Self)
        ensures
            r.view() == bindings_of(
                value@.map_values(|m: models::InputMapping| (m.input, m.actions)),
            ),
    {
        let ghost src = value@.map_values(|m: models::InputMapping| (m.input, m.actions));
        let mut table = InputMapping { entries: Vec::new() };
        let mut i: usize = 0;
        while i < value.len()
            invariant
                i <= value@.len(),
                src == value@.map_values(|m: models::InputMapping| (m.input, m.actions)),
                table.view() == bindings_of(src.take(i as int)),
            decreases value@.len() - i,
        {
            assert(src.take(i + 1).drop_last() =~= src.take(i as int));
            table.set(value[i].input, copy_keystrokes(&value[i].actions));
            assert(table.view() =~= bindings_of(src.take(i + 1)));
            i = i + 1;
        }
        assert(src.take(src.len() as int) =~= src);
        table
    }

    /// The bindings of one stored row.
    pub fn from_mapping(value: models::InputMapping) -> (r: Self)
        ensures
            r.view() == map![value.input => value.actions@],
    {
        let mut entries: Vec<(InputActions, Vec<Keystroke>)> = Vec::new();
        entries.push((value.input, value.actions));
        let r = Self { entries };
        assert(r.entries@.drop_last() =~= Seq::<(InputActions, Vec<Keystroke>)>::empty());
        assert(bindings_of(r.entries@.drop_last()) == Map::<InputActions, Seq<Keystroke>>::empty());
        assert(r.view() =~= map![value.input => value.actions@]);
        r
    }

    /// Binds `input` to `actions`, replacing its earlier binding; the table
    /// keeps one entry per event.
    pub fn set(&mut self, input: InputActions, actions: Vec<Keystroke>)
        ensures
            final(self).view() == old(self).view().insert(input, actions@),
            forall|j: int| 0 <= j < final(self).entries@.len() - 1 ==> (#[trigger] final(self).entries@[j]).0 != input,
            final(self).entries@.len() <= old(self).entries@.len() + 1,
    {
        let ghost s = self.entries@;
        let mut out: Vec<(InputActions, Vec<Keystroke>)> = Vec::new();
        let mut i: usize = 0;
        while i < self.entries.len()
            invariant
                s == self.entries@,
                i <= s.len(),
                out@.len() <= i,
                bindings_of(out@) == bindings_of(s.take(i as int)).remove(input),
                forall|j: int| 0 <= j < out@.len() ==> (#[trigger] out@[j]).0 != input,
            decreases s.len() - i,
        {
            let key = self.entries[i].0;
            assert(s.take(i + 1).drop_last() =~= s.take(i as int));
            if key != input {
                let ghost before = out@;
                out.push((key, copy_keystrokes(&self.entries[i].1)));
                assert(out@.drop_last() =~= before);
                assert(bindings_of(out@) =~= bindings_of(s.take(i + 1)).remove(input));
            } else {
                assert(bindings_of(out@) =~= bindings_of(s.take(i + 1)).remove(input));
            }
            i = i + 1;
        }
        assert(s.take(s.len() as int) =~= s);
        let ghost before = out@;
        out.push((input, actions));
        assert(out@.drop_last() =~= before);
        assert(bindings_of(out@) =~= bindings_of(s).insert(input, actions@));
        self.entries = out;
    }

    /// Adds every binding of `new_actions`, replacing this table's binding
    /// for the same event; bindings only this table has are kept.
    pub fn override_config(&mut self, new_actions: InputMapping)
        ensures
            final(self).view() == old(self).view().union_prefer_right(new_actions.view()),
    {
        let ghost start = self.view();
        let ghost other = new_actions.entries@;
        let mut i: usize = 0;
        while i < new_actions.entries.len()
            invariant
                other == new_actions.entries@,
                i <= other.len(),
                self.view() == start.union_prefer_right(bindings_of(other.take(i as int))),
            decreases other.len() - i,
        {
            assert(other.take(i + 1).drop_last() =~= other.take(i as int));
            let e = &new_actions.entries[i];
            self.set(e.0, copy_keystrokes(&e.1));
            assert(self.view() =~= start.union_prefer_right(bindings_of(other.take(i + 1))));
            i = i + 1;
        }
        assert(other.take(other.len() as int) =~= other);
    }

    /// The keystrokes bound to `input`, if any.
    pub fn get(&self, input: InputActions) -> (r: Option<Vec<Keystroke>>)
        ensures
            r is Some <==> self.view().contains_key(input),
            r matches Some(v) ==> v@ == self.view()[input],
    {
        let mut i: usize = self.entries.len();
        while i > 0
            invariant
                i <= self.entries@.len(),
                forall|j: int| i <= j < self.entries@.len() ==> self.entries@[j].0 != input,
            decreases i,
        {
            if self.entries[i - 1].0 == input {
                proof {
                    lemma_bindings_suffix_free(self.entries@, i as int, input);
                    assert(self.entries@.take(i as int).drop_last() =~= self.entries@.take(i - 1));
                }
                return Some(copy_keystrokes(&self.entries[i - 1].1));
            }
            i = i - 1;
        }
        proof {
            lemma_bindings_suffix_free(self.entries@, 0, input);
            assert(self.entries@.take(0) =~= Seq::<(InputActions, Vec<Keystroke>)>::empty());
        }
        None
    }
}

proof fn lemma_bindings_same_views(a: Seq<(InputActions, Vec<Keystroke>)>, b: Seq<(InputActions, Vec<Keystroke>)>)
    requires
        a.len() == b.len(),
        forall|j: int| 0 <= j < a.len() ==> (#[trigger] a[j]).0 == b[j].0 && a[j].1@ == b[j].1@,
    ensures
        bindings_of(a) == bindings_of(b),
    decreases a.len(),
{
    if a.len() > 0 {
        lemma_bindings_same_views(a.drop_last(), b.drop_last());
    }
}

/// Overriding a table twice with the same bindings gives what overriding
/// once gives.
pub proof fn lemma_override_idempotent(
    base: Map<InputActions, Seq<Keystroke>>,
    other: Map<InputActions, Seq<Keystroke>>,
)
    ensures
        base.union_prefer_right(other).union_prefer_right(other) == base.union_prefer_right(other),
{
    assert(base.union_prefer_right(other).union_prefer_right(other) =~= base.union_prefer_right(other));
}

/// Handles device input by clicking the keystrokes bound to each event.
pub struct LaunchpadInputHandler<E: KeyActionExecutor> {
    pub input_mapping: InputMapping,
    pub key_action_executor: E,
}

impl<E: KeyActionExecutor> LaunchpadInputHandler<E> {
    pub fn new(mapping: InputMapping, key_action_executor: E) -> (r: Self)
        ensures
            r.input_mapping.view() == mapping.view(),
    {
        Self { input_mapping: mapping, key_action_executor }
    }

    /// This handler's bindings overridden by `new_mapping`.
    pub fn new_updated_mappings(&self, new_mapping: InputMapping) -> (r: InputMapping)
        ensures
            r.view() == self.input_mapping.view().union_prefer_right(new_mapping.view()),
    {
        let mut entries: Vec<(InputActions, Vec<Keystroke>)> = Vec::new();
        let mut i: usize = 0;
        while i < self.input_mapping.entries.len()
            invariant
                i <= self.input_mapping.entries@.len(),
                entries@.len() == i,
                forall|j: int| 0 <= j < i ==> (#[trigger] entries@[j]).0 == self.input_mapping.entries@[j].0
                    && entries@[j].1@ == self.input_mapping.entries@[j].1@,
            decreases self.input_mapping.entries@.len() - i,
        {
            let e = &self.input_mapping.entries[i];
            entries.push((e.0, copy_keystrokes(&e.1)));
            i = i + 1;
        }
        proof {
            lemma_bindings_same_views(entries@, self.input_mapping.entries@);
        }
        let mut copy = InputMapping { entries };
        copy.override_config(new_mapping);
        copy
    }

    /// The keystrokes to click for `input_action`: its binding, and none for
    /// `Unknown`.
    pub fn bound_keys(&self, input_action: InputActions) -> (r: Option<Vec<Keystroke>>)
        ensures
            input_action == InputActions::Unknown ==> r is None,
            input_action != InputActions::Unknown ==> (r is Some <==> self.input_mapping.view().contains_key(input_action)),
            r matches Some(v) ==> v@ == self.input_mapping.view()[input_action],
    {
        match input_action {
            InputActions::Unknown => None,
            _ => self.input_mapping.get(input_action),
        }
    }

    fn execute_keys(&self, input_action: InputActions) {
        if let Some(actions) = self.bound_keys(input_action) {
            let _ = self.key_action_executor.execute(actions.as_slice());
        }
    }

    fn handle_touchscreen(&self, touchscreen_action: TouchscreenAction) {
        self.execute_keys(InputActions::Touchscreen(touchscreen_action));
    }

    fn handle_button(&self, button_action: ButtonActions) {
        self.execute_keys(InputActions::Button(button_action));
    }

    fn handle_knob(&self, knob_action: KnobActions) {
        self.execute_keys(InputActions::Knob(knob_action));
    }
}

impl<E: KeyActionExecutor> InputHandler for LaunchpadInputHandler<E> {
    fn handle(&self, action: InputActions) {
        match action {
            InputActions::Touchscreen(touchscreen_action) => {
                self.handle_touchscreen(touchscreen_action);
            },
            InputActions::Knob(knob_action) => self.handle_knob(knob_action),
            InputActions::Button(button_action) => self.handle_button(button_action),
            InputActions::Unknown => {},
        }
    }
}

} // verus!
