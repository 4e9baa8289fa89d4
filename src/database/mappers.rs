use vstd::prelude::*;
use crate::actions_text::{actions_text, decode_actions, encode_actions, lemma_actions_text_injective, MalformedActions};
use crate::database::models::{ImageMapping, InputMapping};
use crate::display_zones::{is_zone_id, zone_id, DisplayZones, UnknownDisplayZone};
use crate::inputs::{lemma_id_round_trip, InputActions};
use crate::keys::Keystroke;

verus! {

/// A binding as a row of the input table.
#[derive(Debug, Clone)]
pub struct InputMappingStorageFormat {
    pub input_id: u8,
    pub actions: String,
}

/// An image binding as a row of the image table.
#[derive(Debug, Clone)]
pub struct ImageMappingStorageFormat {
    pub display_zone: u8,
    pub image_path: String,
}

impl PartialEq for InputMappingStorageFormat {
    fn eq(&self, other: &InputMappingStorageFormat) -> (r: bool) {
        self.input_id == other.input_id && self.actions == other.actions
    }
}

impl vstd::std_specs::cmp::PartialEqSpecImpl for InputMappingStorageFormat {
    open spec fn obeys_eq_spec() -> bool {
        true
    }

    open spec fn eq_spec(&self, other: &InputMappingStorageFormat) -> bool {
        self.input_id == other.input_id && self.actions@ == other.actions@
    }
}

impl PartialEq for ImageMappingStorageFormat {
    fn eq(&self, other: &ImageMappingStorageFormat) -> (r: bool) {
        self.display_zone == other.display_zone && self.image_path == other.image_path
    }
}

impl vstd::std_specs::cmp::PartialEqSpecImpl for ImageMappingStorageFormat {
    open spec fn obeys_eq_spec() -> bool {
        true
    }

    open spec fn eq_spec(&self, other: &ImageMappingStorageFormat) -> bool {
        self.display_zone == other.display_zone && self.image_path@ == other.image_path@
    }
}

impl ImageMappingStorageFormat {
    /// The row that stores an image binding.
    pub fn from(mapping: ImageMapping) -> (r: Self)
        ensures
            r.display_zone == zone_id(mapping.display_zone),
            r.image_path@ == mapping.image_path@,
    {
        Self { display_zone: mapping.display_zone.to_wire(), image_path: mapping.image_path }
    }
}

impl ImageMapping {
    /// The image binding a row stores; a row whose zone byte names no zone is
    /// rejected.
    pub fn try_from(storage_format: ImageMappingStorageFormat) -> (r: Result<
        ImageMapping,
        UnknownDisplayZone,
    >)
        ensures
            r is Ok <==> is_zone_id(storage_format.display_zone),
            r matches Ok(m) ==> zone_id(m.display_zone) == storage_format.display_zone
                && m.image_path@ == storage_format.image_path@,
    {
        let display_zone = DisplayZones::try_from(storage_format.display_zone)?;
        Ok(ImageMapping { display_zone, image_path: storage_format.image_path })
    }
}

impl InputMappingStorageFormat {
    /// The row that stores a binding: the event's identifier and the text of
    /// its keystrokes.
    pub fn from(input: InputMapping) -> (r: Self)
        ensures
            r.input_id == input.input.spec_id(),
            r.actions@ == actions_text(input.actions@),
    {
        Self { input_id: input.input.to_id(), actions: encode_actions(&input.actions) }
    }
}

impl InputMapping {
    /// The binding a row stores. An identifier that names no event gives
    /// `Unknown`; a text that no keystroke sequence has is rejected.
    pub fn try_from(input: InputMappingStorageFormat) -> (r: Result<InputMapping, MalformedActions>)
        ensures
            r matches Ok(m) ==> m.input == InputActions::spec_from_id(input.input_id)
                && actions_text(m.actions@) == input.actions@,
            forall|ks: Seq<Keystroke>|
                input.actions@ == actions_text(ks) ==> (r matches Ok(m) && m.actions@ == ks
                    && m.input == InputActions::spec_from_id(input.input_id)),
    {
        let actions = decode_actions(input.actions.as_str())?;
        Ok(InputMapping::new(InputActions::from_id(input.input_id), actions))
    }
}

/// A binding survives storage: the row written for it (the event's
/// identifier and the keystrokes' text) names that event and is the text
/// of that keystroke sequence and of no other, so reading the row back
/// gives the binding.
pub proof fn lemma_binding_round_trip(input: InputActions, keys: Seq<Keystroke>)
    ensures
        InputActions::spec_from_id(input.spec_id()) == input,
        forall|other: Seq<Keystroke>| actions_text(other) == actions_text(keys) ==> other == keys,
{
    lemma_id_round_trip(input);
    assert forall|other: Seq<Keystroke>| actions_text(other) == actions_text(keys) implies other == keys by {
        lemma_actions_text_injective(other, keys);
    }
}

} // verus!
