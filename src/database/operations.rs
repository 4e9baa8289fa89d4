use vstd::prelude::*;
use crate::actions_text::actions_text;
use crate::database::mappers::{ImageMappingStorageFormat, InputMappingStorageFormat};
use crate::database::models::{ImageMapping, InputMapping};
use crate::database::sqlite::{
    config_rows, create_tables, delete_all_image_rows, delete_image_row, image_rows, input_rows,
    lists_rows, query_brightness, query_image_rows, query_input_rows,
    upsert_brightness_row, upsert_image_row, upsert_input_row, SqLite,
};
use crate::display_zones::{is_zone_id, zone_id, DisplayZones};
use crate::inputs::InputActions;
use crate::keys::Keystroke;

verus! {

/// Why a store operation failed.
#[derive(Debug)]
pub enum StoreError {
    /// The database connection has been closed.
    NotInitialised,
    /// The database refused the statement.
    Sqlite(rusqlite::Error),
    /// A stored row does not hold a valid binding.
    Conversion,
}

/// `ids` lists each key of `m` exactly once.
pub open spec fn lists_keys<V>(ids: Seq<u8>, m: Map<u8, V>) -> bool {
    &&& forall|i: int| 0 <= i < ids.len() ==> #[trigger] m.contains_key(ids[i])
    &&& forall|i: int, j: int| 0 <= i < j < ids.len() ==> ids[i] != ids[j]
    &&& forall|k: u8| m.contains_key(k) ==> exists|i: int| 0 <= i < ids.len() && #[trigger] ids[i] == k
}

/// `v` holds one binding for each row of the input table `m`, in some order.
pub open spec fn lists_bindings(v: Seq<InputMapping>, m: Map<u8, Seq<char>>) -> bool {
    exists|ids: Seq<u8>|
        ids.len() == v.len() && lists_keys(ids, m) && forall|i: int|
            0 <= i < v.len() ==> #[trigger] v[i].input == InputActions::spec_from_id(ids[i])
                && actions_text(v[i].actions@) == m[ids[i]]
}

/// `v` holds one image binding for each row of the image table `m`, in
/// some order.
pub open spec fn lists_images(v: Seq<ImageMapping>, m: Map<u8, Seq<char>>) -> bool {
    lists_keys(v.map_values(|x: ImageMapping| zone_id(x.display_zone)), m) && forall|i: int|
        0 <= i < v.len() ==> m[zone_id(#[trigger] v[i].display_zone)] == v[i].image_path@
}

/// The configuration store: input bindings, zone images and brightness.
pub struct Operations {
    pub database: SqLite,
}

impl Operations {
    /// Rows of the input table, by event identifier.
    pub open spec fn inputs(&self) -> Map<u8, Seq<char>> {
        match self.database.connection {
            Some(c) => input_rows(c),
            None => Map::empty(),
        }
    }

    /// Rows of the image table, by zone identifier.
    pub open spec fn images(&self) -> Map<u8, Seq<char>> {
        match self.database.connection {
            Some(c) => image_rows(c),
            None => Map::empty(),
        }
    }

    /// The brightness row, under key 1.
    pub open spec fn config(&self) -> Map<u8, u8> {
        match self.database.connection {
            Some(c) => config_rows(c),
            None => Map::empty(),
        }
    }

    /// The three tables are as in `other`, and so is whether the store is open.
    pub open spec fn same_tables(&self, other: &Operations) -> bool {
        &&& self.database.connection is Some <==> other.database.connection is Some
        &&& self.inputs() == other.inputs()
        &&& self.images() == other.images()
        &&& self.config() == other.config()
    }

    /// A store over `db`, whose tables are created where missing; the rows
    /// already there are kept.
    pub fn new(db: SqLite) -> (r: Self)
        ensures
            r.database.connection is Some <==> db.connection is Some,
            r.inputs() == (Operations { database: db }).inputs(),
            r.images() == (Operations { database: db }).images(),
            r.config() == (Operations { database: db }).config(),
    {
        let mut instance = Operations { database: db };
        match &mut instance.database.connection {
            Some(c) => {
                let _ = create_tables(c);
            },
            None => {},
        }
        instance
    }

    /// Stores the binding for its event, replacing any earlier one.
    pub fn set_mapping_for_input(&mut self, input_mapping: InputMapping) -> (r: Result<
        usize,
        StoreError,
    >)
        ensures
            old(self).database.connection is None <==> r matches Err(StoreError::NotInitialised),
            r is Ok ==> final(self).inputs() == old(self).inputs().insert(
                input_mapping.input.spec_id(),
                actions_text(input_mapping.actions@),
            ) && final(self).images() == old(self).images() && final(self).config() == old(self).config(),
            r is Err ==> final(self).same_tables(old(self)),
            final(self).database.connection is Some <==> old(self).database.connection is Some,
    {
        let storage = InputMappingStorageFormat::from(input_mapping);
        match &mut self.database.connection {
            Some(c) => match upsert_input_row(c, storage.input_id, storage.actions.as_str()) {
                Ok(n) => Ok(n),
                Err(e) => Err(StoreError::Sqlite(e)),
            },
            None => Err(StoreError::NotInitialised),
        }
    }

    /// Stores the image path for its zone, replacing any earlier one.
    pub fn set_image_for_display_zone(&mut self, image_mapping: ImageMapping) -> (r: Result<
        usize,
        StoreError,
    >)
        ensures
            old(self).database.connection is None <==> r matches Err(StoreError::NotInitialised),
            r is Ok ==> final(self).images() == old(self).images().insert(
                zone_id(image_mapping.display_zone),
                image_mapping.image_path@,
            ) && final(self).inputs() == old(self).inputs() && final(self).config() == old(self).config(),
            r is Err ==> final(self).same_tables(old(self)),
            final(self).database.connection is Some <==> old(self).database.connection is Some,
    {
        let storage = ImageMappingStorageFormat::from(image_mapping);
        match &mut self.database.connection {
            Some(c) => match upsert_image_row(c, storage.display_zone, storage.image_path.as_str()) {
                Ok(n) => Ok(n),
                Err(e) => Err(StoreError::Sqlite(e)),
            },
            None => Err(StoreError::NotInitialised),
        }
    }

    /// Forgets the image of one zone.
    pub fn clear_image_for_display_zone(&mut self, display_zones: DisplayZones) -> (r: Result<
        usize,
        StoreError,
    >)
        ensures
            old(self).database.connection is None <==> r matches Err(StoreError::NotInitialised),
            r is Ok ==> final(self).images() == old(self).images().remove(zone_id(display_zones))
                && final(self).inputs() == old(self).inputs() && final(self).config() == old(self).config(),
            r is Err ==> final(self).same_tables(old(self)),
            final(self).database.connection is Some <==> old(self).database.connection is Some,
    {
        let int_value = display_zones.to_wire();
        match &mut self.database.connection {
            Some(c) => match delete_image_row(c, int_value) {
                Ok(n) => Ok(n),
                Err(e) => Err(StoreError::Sqlite(e)),
            },
            None => Err(StoreError::NotInitialised),
        }
    }

    /// Stores the brightness, replacing any earlier value.
    pub fn set_brightness(&mut self, brightness: u8) -> (r: Result<usize, StoreError>)
        ensures
            old(self).database.connection is None <==> r matches Err(StoreError::NotInitialised),
            r is Ok ==> final(self).config() == old(self).config().insert(1u8, brightness)
                && final(self).inputs() == old(self).inputs() && final(self).images() == old(self).images(),
            r is Err ==> final(self).same_tables(old(self)),
            final(self).database.connection is Some <==> old(self).database.connection is Some,
    {
        match &mut self.database.connection {
            Some(c) => match upsert_brightness_row(c, brightness) {
                Ok(n) => Ok(n),
                Err(e) => Err(StoreError::Sqlite(e)),
            },
            None => Err(StoreError::NotInitialised),
        }
    }

    /// The stored brightness, or `None` when none was stored.
    pub fn get_stored_brightness(&self) -> (r: Result<Option<u8>, StoreError>)
        ensures
            self.database.connection is None <==> r matches Err(StoreError::NotInitialised),
            r matches Ok(b) ==> b == (if self.config().contains_key(1u8) {
                Some(self.config()[1u8])
            } else {
                None
            }),
    {
        match &self.database.connection {
            Some(c) => match query_brightness(c) {
                Ok(b) => Ok(b),
                Err(e) => Err(StoreError::Sqlite(e)),
            },
            None => Err(StoreError::NotInitialised),
        }
    }

    /// Forgets every zone image.
    pub fn clear_all_display_zone_images(&mut self) -> (r: Result<usize, StoreError>)
        ensures
            old(self).database.connection is None <==> r matches Err(StoreError::NotInitialised),
            r is Ok ==> final(self).images() == Map::<u8, Seq<char>>::empty() && final(self).inputs() == old(self).inputs() && final(self).config() == old(self).config(),
            r is Err ==> final(self).same_tables(old(self)),
            final(self).database.connection is Some <==> old(self).database.connection is Some,
    {
        match &mut self.database.connection {
            Some(c) => match delete_all_image_rows(c) {
                Ok(n) => Ok(n),
                Err(e) => Err(StoreError::Sqlite(e)),
            },
            None => Err(StoreError::NotInitialised),
        }
    }

    /// Every stored image binding, in no particular order. A row whose zone
    /// byte names no zone makes the whole read fail.
    pub fn get_all_image_mappings(&self) -> (r: Result<Vec<ImageMapping>, StoreError>)
        ensures
            self.database.connection is None <==> r matches Err(StoreError::NotInitialised),
            r matches Ok(v) ==> lists_images(v@, self.images()),
            r matches Err(StoreError::Conversion) ==> exists|k: u8|
                self.images().contains_key(k) && !is_zone_id(k),
    {
        let c = match &self.database.connection {
            Some(c) => c,
            None => {
                return Err(StoreError::NotInitialised);
            },
        };
        let rows = match query_image_rows(c) {
            Ok(rows) => rows,
            Err(e) => {
                return Err(StoreError::Sqlite(e));
            },
        };
        let ghost m = self.images();
        let mut out: Vec<ImageMapping> = Vec::new();
        let mut i: usize = 0;
        while i < rows.len()
            invariant
                i <= rows@.len(),
                m == image_rows(*c),
                m == self.images(),
                self.database.connection is Some,
                lists_rows(rows@, m),
                out@.len() == i,
                forall|j: int| 0 <= j < i ==> zone_id(#[trigger] out@[j].display_zone) == rows@[j].0
                    && out@[j].image_path@ == rows@[j].1@,
            decreases rows@.len() - i,
        {
            let (zone, path) = (rows[i].0, rows[i].1.clone());
            match ImageMapping::try_from(ImageMappingStorageFormat { display_zone: zone, image_path: path }) {
                Ok(mapping) => {
                    out.push(mapping);
                },
                Err(_) => {
                    assert(m.contains_key(rows@[i as int].0));
                    assert(self.images().contains_key(zone) && !is_zone_id(zone));
                    return Err(StoreError::Conversion);
                },
            }
            i = i + 1;
        }
        proof {
            let ids = out@.map_values(|x: ImageMapping| zone_id(x.display_zone));
            assert(ids.len() == rows@.len());
            assert forall|j: int| 0 <= j < ids.len() implies ids[j] == rows@[j].0 by {}
            assert forall|j: int, l: int| 0 <= j < l < ids.len() implies ids[j] != ids[l] by {
                assert(ids[j] == rows@[j].0);
                assert(ids[l] == rows@[l].0);
            }
            assert forall|j: int| 0 <= j < out@.len() implies m[zone_id(#[trigger] out@[j].display_zone)] == out@[j].image_path@ by {
                assert(m.contains_key(rows@[j].0));
            }
            assert forall|k: u8| m.contains_key(k) implies exists|j: int| 0 <= j < ids.len() && #[trigger] ids[j] == k by {
                let j = choose|j: int| 0 <= j < rows@.len() && #[trigger] rows@[j].0 == k;
                assert(ids[j] == k);
            }
            assert forall|j: int| 0 <= j < ids.len() implies #[trigger] m.contains_key(ids[j]) by {
                assert(m.contains_key(rows@[j].0));
            }
        }
        Ok(out)
    }

    /// Every stored binding, in no particular order. A row whose text holds no
    /// keystroke sequence makes the whole read fail; this includes rows kept
    /// in any text form other than the one `encode_actions` writes.
    pub fn get_all_input_mappings(&self) -> (r: Result<Vec<InputMapping>, StoreError>)
        ensures
            self.database.connection is None <==> r matches Err(StoreError::NotInitialised),
            r matches Ok(v) ==> lists_bindings(v@, self.inputs()),
            r matches Err(StoreError::Conversion) ==> exists|k: u8|
                self.inputs().contains_key(k) && !(exists|ks: Seq<Keystroke>| actions_text(ks) == #[trigger] self.inputs()[k]),
    {
        let c = match &self.database.connection {
            Some(c) => c,
            None => {
                return Err(StoreError::NotInitialised);
            },
        };
        let rows = match query_input_rows(c) {
            Ok(rows) => rows,
            Err(e) => {
                return Err(StoreError::Sqlite(e));
            },
        };
        let ghost m = self.inputs();
        let mut out: Vec<InputMapping> = Vec::new();
        let mut i: usize = 0;
        while i < rows.len()
            invariant
                i <= rows@.len(),
                m == input_rows(*c),
                m == self.inputs(),
                self.database.connection is Some,
                lists_rows(rows@, m),
                out@.len() == i,
                forall|j: int| 0 <= j < i ==> (#[trigger] out@[j]).input == InputActions::spec_from_id(rows@[j].0)
                    && actions_text(out@[j].actions@) == rows@[j].1@,
            decreases rows@.len() - i,
        {
            let (id, text) = (rows[i].0, rows[i].1.clone());
            match InputMapping::try_from(InputMappingStorageFormat { input_id: id, actions: text }) {
                Ok(mapping) => {
                    out.push(mapping);
                },
                Err(_) => {
                    assert(m.contains_key(rows@[i as int].0));
                    assert(m[rows@[i as int].0] == rows@[i as int].1@);
                    assert(!(exists|ks: Seq<Keystroke>| actions_text(ks) == #[trigger] self.inputs()[id])) by {
                        assert forall|ks: Seq<Keystroke>| actions_text(ks) != self.inputs()[id] by {
                            if actions_text(ks) == self.inputs()[id] {
                                assert(text@ == actions_text(ks));
                            }
                        }
                    }
                    assert(self.inputs().contains_key(id));
                    return Err(StoreError::Conversion);
                },
            }
            i = i + 1;
        }
        proof {
            let ids = rows@.map_values(|x: (u8, String)| x.0);
            assert forall|k: u8| m.contains_key(k) implies exists|j: int| 0 <= j < ids.len() && #[trigger] ids[j] == k by {
                let j = choose|j: int| 0 <= j < rows@.len() && #[trigger] rows@[j].0 == k;
                assert(ids[j] == k);
            }
            assert forall|j: int| 0 <= j < ids.len() implies #[trigger] m.contains_key(ids[j]) by {
                assert(m.contains_key(rows@[j].0));
            }
            assert forall|j: int| 0 <= j < out@.len() implies #[trigger] out@[j].input == InputActions::spec_from_id(ids[j])
                && actions_text(out@[j].actions@) == m[ids[j]] by {
                assert(m.contains_key(rows@[j].0));
            }
            assert(lists_keys(ids, m));
        }
        Ok(out)
    }
}

/// Storing a binding for an event twice leaves the second: the table holds
/// one row for the event, with the second text, and nothing else changes.
pub proof fn lemma_second_binding_wins(
    rows: Map<u8, Seq<char>>,
    input: InputActions,
    first: Seq<Keystroke>,
    second: Seq<Keystroke>,
)
    ensures
        rows.insert(input.spec_id(), actions_text(first)).insert(input.spec_id(), actions_text(second))
            == rows.insert(input.spec_id(), actions_text(second)),
{
    assert(rows.insert(input.spec_id(), actions_text(first)).insert(input.spec_id(), actions_text(second))
        =~= rows.insert(input.spec_id(), actions_text(second)));
}

/// Once every image row is gone, a listing of the image table is empty.
pub proof fn lemma_cleared_images_list_empty(v: Seq<ImageMapping>)
    requires
        lists_images(v, Map::<u8, Seq<char>>::empty()),
    ensures
        v.len() == 0,
{
    if v.len() > 0 {
        let ids = v.map_values(|x: ImageMapping| zone_id(x.display_zone));
        assert(Map::<u8, Seq<char>>::empty().contains_key(ids[0]));
    }
}

} // verus!
