use light_control::error::{ControlError, ErrorKind, Instance};
use light_control::music::{
    compose_music_mode, find_music_mode, for_each_music_mode, list_music_modes,
    music_mode_options, resolve_music_mode,
};
use light_control::schema::{DeviceParameters, EnumOption, IntegerRange, StructField};

fn mode(name: &str, value: u64) -> EnumOption {
    EnumOption { name: name.to_string(), value: serde_json::Value::from(value) }
}

fn field(name: &str, schema: DeviceParameters) -> StructField {
    StructField { field_name: name.to_string(), field_type: schema }
}

fn level() -> DeviceParameters {
    DeviceParameters::Integer { range: IntegerRange { min: 0, max: 100, step: None } }
}

fn music_schema(names: &[&str]) -> DeviceParameters {
    let modes = names.iter().enumerate().map(|(at, name)| mode(name, at as u64 + 1)).collect();
    DeviceParameters::Struct {
        fields: vec![
            field("sensitivity", level()),
            field("musicMode", DeviceParameters::Enum { options: modes }),
            field("autoColor", level()),
        ],
    }
}

#[test]
fn music_modes_are_listed_in_order() {
    let schema = music_schema(&["Energetic", "Calm", "Rhythm"]);
    assert_eq!(list_music_modes(&schema).unwrap(), vec!["Energetic", "Calm", "Rhythm"]);
    assert!(list_music_modes(&music_schema(&[])).unwrap().is_empty());
}

#[test]
fn music_mode_is_found_without_regard_to_case() {
    let schema = music_schema(&["Energetic", "Calm"]);
    assert_eq!(find_music_mode(&schema, "calm").unwrap(), serde_json::Value::from(2u64));
    assert_eq!(find_music_mode(&schema, "CALM").unwrap(), serde_json::Value::from(2u64));
    assert_eq!(find_music_mode(&schema, "Energetic").unwrap(), serde_json::Value::from(1u64));
}

#[test]
fn music_mode_search_halts_at_the_first_match() {
    let schema = music_schema(&["calm", "Calm", "CALM"]);
    assert_eq!(find_music_mode(&schema, "Calm").unwrap(), serde_json::Value::from(1u64));
}

#[test]
fn unknown_music_mode_is_not_found() {
    let schema = music_schema(&["Energetic", "Calm"]);
    let error = find_music_mode(&schema, "spectrum").unwrap_err();
    assert_eq!(error, ControlError::MusicModeNotFound);
    assert_eq!(error.kind(), ErrorKind::ValueNotFound);
    assert_eq!(
        find_music_mode(&music_schema(&[]), "calm").unwrap_err(),
        ControlError::MusicModeNotFound
    );
}

#[test]
fn structure_without_the_field_is_not_found() {
    let schema = DeviceParameters::Struct {
        fields: vec![field("sensitivity", level()), field("MusicMode", level())],
    };
    let error = find_music_mode(&schema, "calm").unwrap_err();
    assert_eq!(error, ControlError::MusicModeFieldNotFound);
    assert_eq!(error.kind(), ErrorKind::ValueNotFound);
    assert_eq!(list_music_modes(&schema).unwrap_err(), ControlError::MusicModeFieldNotFound);
    let bare = DeviceParameters::Struct { fields: vec![] };
    assert_eq!(music_mode_options(&bare).unwrap_err(), ControlError::MusicModeFieldNotFound);
}

#[test]
fn music_schema_of_another_shape_does_not_fit() {
    let mismatch = ControlError::SchemaMismatch { instance: Instance::MusicMode };
    assert_eq!(mismatch.kind(), ErrorKind::SchemaMismatch);
    // No structure at all.
    assert_eq!(find_music_mode(&level(), "calm").unwrap_err(), mismatch);
    let flat = DeviceParameters::Enum { options: vec![mode("Calm", 2)] };
    assert_eq!(list_music_modes(&flat).unwrap_err(), mismatch);
    // The field is there, but is no enumeration.
    let odd = DeviceParameters::Struct { fields: vec![field("musicMode", level())] };
    assert_eq!(find_music_mode(&odd, "calm").unwrap_err(), mismatch);
    assert_eq!(list_music_modes(&odd).unwrap_err(), mismatch);
}

#[test]
fn two_fields_of_the_name_do_not_fit() {
    let mismatch = ControlError::SchemaMismatch { instance: Instance::MusicMode };
    let twice = DeviceParameters::Struct {
        fields: vec![
            field("musicMode", DeviceParameters::Enum { options: vec![mode("Calm", 1)] }),
            field("sensitivity", level()),
            field("musicMode", DeviceParameters::Enum { options: vec![mode("Rhythm", 2)] }),
        ],
    };
    assert_eq!(list_music_modes(&twice).unwrap_err(), mismatch);
    assert_eq!(find_music_mode(&twice, "calm").unwrap_err(), mismatch);
    assert_eq!(find_music_mode(&twice, "rhythm").unwrap_err(), mismatch);
    assert_eq!(music_mode_options(&twice).unwrap_err(), mismatch);
    let odd_first = DeviceParameters::Struct {
        fields: vec![
            field("musicMode", level()),
            field("musicMode", DeviceParameters::Enum { options: vec![mode("Rhythm", 2)] }),
        ],
    };
    assert_eq!(find_music_mode(&odd_first, "rhythm").unwrap_err(), mismatch);
    let odd_last = DeviceParameters::Struct {
        fields: vec![
            field("musicMode", DeviceParameters::Enum { options: vec![mode("Rhythm", 2)] }),
            field("musicMode", level()),
        ],
    };
    assert_eq!(find_music_mode(&odd_last, "rhythm").unwrap_err(), mismatch);
}

#[test]
fn one_field_of_the_name_is_found_wherever_it_stands() {
    let last = DeviceParameters::Struct {
        fields: vec![
            field("sensitivity", level()),
            field("autoColor", level()),
            field("musicMode", DeviceParameters::Enum { options: vec![mode("Rhythm", 2)] }),
        ],
    };
    assert_eq!(list_music_modes(&last).unwrap(), vec!["Rhythm"]);
    assert_eq!(music_mode_options(&last).unwrap().len(), 1);
}

#[test]
fn traversal_runs_to_the_end_while_told_to_go_on() {
    let schema = music_schema(&["Energetic", "Calm", "Rhythm"]);
    let count = |seen: usize, _: &EnumOption| (seen + 1, true);
    assert_eq!(for_each_music_mode(count, 0, &schema).unwrap(), (3, true));
    assert_eq!(for_each_music_mode(count, 5, &music_schema(&[])).unwrap(), (5, true));
}

#[test]
fn traversal_halts_when_told_to() {
    let schema = music_schema(&["Energetic", "Calm", "Rhythm"]);
    let until_calm = |seen: Vec<String>, option: &EnumOption| {
        let mut seen = seen;
        seen.push(option.name.clone());
        let go_on = option.name != "Calm";
        (seen, go_on)
    };
    let (seen, completed) = for_each_music_mode(until_calm, Vec::new(), &schema).unwrap();
    assert_eq!(seen, vec!["Energetic", "Calm"]);
    assert!(!completed);
    // A halt at the last option is still a halt.
    let until_rhythm = |seen: usize, option: &EnumOption| (seen + 1, option.name != "Rhythm");
    assert_eq!(for_each_music_mode(until_rhythm, 0, &schema).unwrap(), (3, false));
}

#[test]
fn traversal_fails_before_any_visit_on_a_wrong_schema() {
    let never = |_: bool, _: &EnumOption| (true, true);
    assert_eq!(
        for_each_music_mode(never, false, &level()).unwrap_err(),
        ControlError::SchemaMismatch { instance: Instance::MusicMode }
    );
    let bare = DeviceParameters::Struct { fields: vec![] };
    assert_eq!(
        for_each_music_mode(never, false, &bare).unwrap_err(),
        ControlError::MusicModeFieldNotFound
    );
}

#[test]
fn composite_holds_what_was_asked() {
    let value = compose_music_mode(serde_json::Value::from(2u64), 50, true, None);
    assert_eq!(value.music_mode, serde_json::Value::from(2u64));
    assert_eq!(value.sensitivity, 50);
    assert_eq!(value.auto_color, 1);
    assert_eq!(value.rgb, None);
    let colour = csscolorparser::Color::from_rgba8(255, 0, 128, 40);
    let value = compose_music_mode(serde_json::Value::from("x"), 255, false, Some(&colour));
    assert_eq!(value.music_mode, serde_json::Value::from("x"));
    assert_eq!(value.sensitivity, 255);
    assert_eq!(value.auto_color, 0);
    assert_eq!(value.rgb, Some(0xFF0080));
}

#[test]
fn sensitivity_is_passed_through_unclamped() {
    let schema = music_schema(&["Energetic", "Calm"]);
    for sensitivity in [0u8, 1, 100, 101, 255] {
        let value = resolve_music_mode(&schema, "calm", sensitivity, false, None).unwrap();
        assert_eq!(value.sensitivity, sensitivity);
    }
}

#[test]
fn music_mode_resolves_to_the_composite() {
    let schema = music_schema(&["Energetic", "Calm"]);
    let value = resolve_music_mode(&schema, "calm", 50, true, None).unwrap();
    assert_eq!(value.music_mode, serde_json::Value::from(2u64));
    assert_eq!(value.sensitivity, 50);
    assert_eq!(value.auto_color, 1);
    assert_eq!(value.rgb, None);
    let error = resolve_music_mode(&schema, "disco", 50, true, None).unwrap_err();
    assert_eq!(error, ControlError::MusicModeNotFound);
}
