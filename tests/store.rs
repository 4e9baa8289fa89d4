use launchpad::actions_text::{decode_actions, encode_actions};
use launchpad::database::mappers::{ImageMappingStorageFormat, InputMappingStorageFormat};
use launchpad::database::models::{ImageMapping, InputMapping};
use launchpad::database::operations::Operations;
use launchpad::database::sqlite::SqLite;
use launchpad::display_zones::DisplayZones;
use launchpad::inputs::ButtonActions::{Button1Pressed, Button4Pressed};
use launchpad::inputs::{InputActions, KnobActions};
use launchpad::keys::Keystroke;

struct Person {
    id: i32,
    name: String,
    data: Option<Vec<u8>>,
}

#[test]
fn converts_in_memory_image_mapping_to_image_mapping() {
    let rust = ImageMapping {
        display_zone: DisplayZones::Button4,
        image_path: String::from("/foo/bar/baz.png"),
    };

    assert_eq!(
        ImageMappingStorageFormat::from(rust),
        ImageMappingStorageFormat { display_zone: 14, image_path: String::from("/foo/bar/baz.png") }
    )
}

#[test]
fn functioning_database() {
    let db = SqLite::new(false).unwrap();
    let connection = db.connection().unwrap();

    connection
        .execute(
            "CREATE TABLE person (
            id   INTEGER PRIMARY KEY,
            name TEXT NOT NULL,
            data BLOB
        )",
            (),
        )
        .unwrap();

    let me = Person { id: 0, name: "Steven".to_string(), data: None };
    connection
        .execute("INSERT INTO person (name, data) VALUES (?1, ?2)", (&me.name, &me.data))
        .unwrap();

    let mut stmt = connection.prepare("SELECT id, name, data FROM person").unwrap();

    let person_iter = stmt
        .query_map([], |row| Ok(Person { id: row.get(0)?, name: row.get(1)?, data: row.get(2)? }))
        .unwrap();

    for person in person_iter {
        let person = person.unwrap();

        assert_eq!(person.id, 1);
        assert_eq!(person.name, me.name);
        assert_eq!(person.data, me.data);
    }
    let _ = me.id;
}

#[test]
fn allows_setting_input_mappings() {
    let sqlite = SqLite::new(false);
    let mut operations = Operations::new(sqlite.unwrap());

    let to_add = &[
        InputMapping::new(InputActions::Button(Button4Pressed), vec![Keystroke::Option]),
        InputMapping::new(InputActions::Button(Button1Pressed), vec![Keystroke::Backspace]),
    ];

    to_add.iter().for_each(|item| {
        operations.set_mapping_for_input(item.clone()).unwrap();
    });

    let all_rows = operations.get_all_input_mappings().unwrap();

    assert_eq!(all_rows.len(), 2);
    to_add.iter().for_each(|item| {
        assert!(all_rows.contains(item));
    });

    operations
        .set_mapping_for_input(InputMapping::new(
            InputActions::Button(Button4Pressed),
            vec![Keystroke::Add, Keystroke::Backspace],
        ))
        .unwrap();

    let new_rows = operations.get_all_input_mappings().unwrap();

    assert_eq!(new_rows.len(), 2);
    assert!(!new_rows.contains(&to_add[0]));
    assert!(new_rows.contains(&to_add[1]));
    assert!(new_rows.contains(&InputMapping::new(
        InputActions::Button(Button4Pressed),
        vec![Keystroke::Add, Keystroke::Backspace],
    )));
}

#[test]
fn allows_setting_and_clearing_display_zone_images() {
    let sqlite = SqLite::new(false);
    let mut operations = Operations::new(sqlite.unwrap());

    let to_add = &[
        ImageMapping { display_zone: DisplayZones::Touchscreen3, image_path: String::from("foo.jpg") },
        ImageMapping { display_zone: DisplayZones::Button3, image_path: String::from("fat.jpg") },
    ];

    for item in to_add.iter() {
        operations.set_image_for_display_zone(item.clone()).unwrap();
    }

    let all_rows = operations.get_all_image_mappings().unwrap();

    assert_eq!(all_rows.len(), 2);
    to_add.iter().for_each(|item| {
        assert!(all_rows.contains(item));
    });

    operations
        .set_image_for_display_zone(ImageMapping {
            display_zone: DisplayZones::Touchscreen3,
            image_path: String::from("231.jpg"),
        })
        .unwrap();

    let new_rows = operations.get_all_image_mappings().unwrap();

    assert_eq!(new_rows.len(), 2);
    assert!(!new_rows.contains(&to_add[0]));
    assert!(new_rows.contains(&ImageMapping {
        display_zone: DisplayZones::Touchscreen3,
        image_path: String::from("231.jpg"),
    }));
    assert!(new_rows.contains(&to_add[1]));

    operations.clear_image_for_display_zone(DisplayZones::Touchscreen3).unwrap();

    let new_rows = operations.get_all_image_mappings().unwrap();
    assert_eq!(new_rows.len(), 1);
    assert!(new_rows.contains(&to_add[1]));
}

#[test]
fn allows_clearing_all_display_zone_images() {
    let sqlite = SqLite::new(false);
    let mut operations = Operations::new(sqlite.unwrap());

    let to_add = &[
        ImageMapping { display_zone: DisplayZones::Touchscreen3, image_path: String::from("foo.jpg") },
        ImageMapping { display_zone: DisplayZones::Button3, image_path: String::from("fat.jpg") },
    ];

    for item in to_add.iter() {
        operations.set_image_for_display_zone(item.clone()).unwrap();
    }

    operations.clear_all_display_zone_images().unwrap();
    let new_rows = operations.get_all_image_mappings().unwrap();

    assert_eq!(new_rows.len(), 0);
}

#[test]
fn allows_setting_brightness_value() {
    let sqlite = SqLite::new(false);
    let mut operations = Operations::new(sqlite.unwrap());

    operations.set_brightness(69).unwrap();

    let brightness = operations.get_stored_brightness().unwrap().unwrap();

    assert_eq!(brightness, 69);

    operations.set_brightness(20).unwrap();
    let brightness = operations.get_stored_brightness().unwrap().unwrap();

    assert_eq!(brightness, 20);
}

#[test]
fn brightness_is_absent_until_stored() {
    let operations = Operations::new(SqLite::new(false).unwrap());
    assert_eq!(operations.get_stored_brightness().unwrap(), None);
}

#[test]
fn closed_store_refuses_work() {
    let mut db = SqLite::new(false).unwrap();
    db.close();
    let mut operations = Operations::new(db);
    assert!(operations.set_brightness(10).is_err());
    assert!(operations.get_all_input_mappings().is_err());
}

#[test]
fn binding_row_round_trips() {
    let binding = InputMapping::new(
        InputActions::Knob(KnobActions::Knob3CounterClockwise),
        vec![Keystroke::Add, Keystroke::Unicode(','), Keystroke::Other(0xDEAD_BEEF), Keystroke::VolumeUp],
    );
    let row = InputMappingStorageFormat::from(binding.clone());
    assert_eq!(row.input_id, binding.input.to_id());
    let back = InputMapping::try_from(row).unwrap();
    assert_eq!(back, binding);
}

#[test]
fn stored_action_text_is_exact() {
    assert_eq!(encode_actions(&vec![]), "[]");
    assert_eq!(encode_actions(&vec![Keystroke::Add, Keystroke::Backspace]), "[K00,K02]");
    assert_eq!(encode_actions(&vec![Keystroke::Unicode('é'), Keystroke::Other(0x1F)]), "[Ué,O0000001f]");
    assert_eq!(decode_actions("[K00,K02]").unwrap(), vec![Keystroke::Add, Keystroke::Backspace]);
    assert_eq!(decode_actions("[]").unwrap(), vec![]);
}

#[test]
fn malformed_action_text_is_rejected() {
    assert!(decode_actions("").is_err());
    assert!(decode_actions("[").is_err());
    assert!(decode_actions("[K00,]").is_err());
    assert!(decode_actions("[K99]").is_err());
    assert!(decode_actions("[Add,Backspace]").is_err());
    assert!(decode_actions("[O123]").is_err());
    assert!(decode_actions("[K00]x").is_err());
}

#[test]
fn unknown_row_identifier_reads_as_unknown_event() {
    let row = InputMappingStorageFormat { input_id: 200, actions: String::from("[K00]") };
    let m = InputMapping::try_from(row).unwrap();
    assert_eq!(m.input, InputActions::Unknown);
    assert_eq!(m.actions, vec![Keystroke::Add]);
}
