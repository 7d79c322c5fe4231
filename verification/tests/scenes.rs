use light_control::error::{ControlError, ErrorKind};
use light_control::scenes::{activate_scene, list_scenes};
use light_control::schema::{Capability, DeviceParameters, EnumOption, IntegerRange};
use light_control::value::ControlValue;

fn scene_option(name: &str, id: u64) -> EnumOption {
    let mut payload = serde_json::Map::new();
    payload.insert("id".to_string(), serde_json::Value::from(id));
    payload.insert("paramId".to_string(), serde_json::Value::from(id + 1000));
    EnumOption { name: name.to_string(), value: serde_json::Value::Object(payload) }
}

fn scene_capability(instance: &str, options: Vec<EnumOption>) -> Capability {
    Capability { instance: instance.to_string(), parameters: DeviceParameters::Enum { options } }
}

fn broken_capability(instance: &str) -> Capability {
    Capability {
        instance: instance.to_string(),
        parameters: DeviceParameters::Integer {
            range: IntegerRange { min: 0, max: 1, step: None },
        },
    }
}

fn two_scene_capabilities() -> Vec<Capability> {
    vec![
        scene_capability("lightScene", vec![scene_option("Sunrise", 1), scene_option("Sunset", 2)]),
        scene_capability("diyScene", vec![scene_option("Relax", 3), scene_option("sunset", 4)]),
    ]
}

fn payload_of(value: ControlValue) -> serde_json::Value {
    match value {
        ControlValue::Payload(payload) => payload,
        other => panic!("a scene resolves to the payload of its option, not to {other:?}"),
    }
}

#[test]
fn scene_is_found_in_the_second_capability() {
    let scenes = two_scene_capabilities();
    let request = activate_scene(&scenes, "relax").unwrap();
    assert_eq!(request.capability, 1);
    assert_eq!(payload_of(request.value), scene_option("Relax", 3).value);
}

#[test]
fn scene_name_is_matched_without_regard_to_case() {
    let scenes = vec![scene_capability("lightScene", vec![scene_option("scene1", 11)])];
    let request = activate_scene(&scenes, "SCENE1").unwrap();
    assert_eq!(request.capability, 0);
    assert_eq!(payload_of(request.value), scene_option("scene1", 11).value);
}

#[test]
fn scene_search_stops_at_the_first_match_over_all_capabilities() {
    // "Sunset" is in the first capability and "sunset" in the second: the
    // first one wins, whichever spelling is asked for.
    let scenes = two_scene_capabilities();
    for asked in ["sunset", "Sunset", "SUNSET"] {
        let request = activate_scene(&scenes, asked).unwrap();
        assert_eq!(request.capability, 0);
        assert_eq!(payload_of(request.value), scene_option("Sunset", 2).value);
    }
}

#[test]
fn scene_search_takes_the_first_option_within_a_capability() {
    let scenes = vec![scene_capability(
        "lightScene",
        vec![scene_option("Aurora", 1), scene_option("aurora", 2)],
    )];
    let request = activate_scene(&scenes, "AURORA").unwrap();
    assert_eq!(payload_of(request.value), scene_option("Aurora", 1).value);
}

#[test]
fn unknown_scene_is_not_found() {
    let scenes = two_scene_capabilities();
    let error = activate_scene(&scenes, "party").unwrap_err();
    assert_eq!(error, ControlError::SceneNotFound);
    assert_eq!(error.kind(), ErrorKind::ValueNotFound);
    assert_eq!(activate_scene(&Vec::new(), "party").unwrap_err(), ControlError::SceneNotFound);
    let empty = vec![scene_capability("lightScene", vec![])];
    assert_eq!(activate_scene(&empty, "party").unwrap_err(), ControlError::SceneNotFound);
}

#[test]
fn scene_capability_of_another_shape_fails_when_it_is_reached() {
    let scenes = vec![
        scene_capability("lightScene", vec![scene_option("Sunrise", 1)]),
        broken_capability("diyScene"),
        scene_capability("snapshot", vec![scene_option("Relax", 3)]),
    ];
    // Found before the broken capability is looked at.
    assert_eq!(activate_scene(&scenes, "sunrise").unwrap().capability, 0);
    // Behind it: the broken one is met first.
    let error = activate_scene(&scenes, "relax").unwrap_err();
    assert_eq!(error, ControlError::SceneSchemaMismatch { capability: 1 });
    assert_eq!(error.kind(), ErrorKind::SchemaMismatch);
    assert_eq!(
        activate_scene(&scenes, "nowhere").unwrap_err(),
        ControlError::SceneSchemaMismatch { capability: 1 }
    );
}

#[test]
fn listing_gives_every_name_in_order() {
    let listing = list_scenes(&two_scene_capabilities());
    assert_eq!(listing.names, vec!["Sunrise", "Sunset", "Relax", "sunset"]);
    assert_eq!(listing.failure, None);
}

#[test]
fn listing_of_nothing_is_empty() {
    let listing = list_scenes(&Vec::new());
    assert!(listing.names.is_empty());
    assert_eq!(listing.failure, None);
    let listing = list_scenes(&vec![scene_capability("lightScene", vec![])]);
    assert!(listing.names.is_empty());
    assert_eq!(listing.failure, None);
}

#[test]
fn listing_stops_at_a_capability_of_another_shape() {
    let scenes = vec![
        scene_capability("lightScene", vec![scene_option("Sunrise", 1)]),
        broken_capability("diyScene"),
        scene_capability("snapshot", vec![scene_option("Relax", 3)]),
    ];
    let listing = list_scenes(&scenes);
    assert_eq!(listing.names, vec!["Sunrise"]);
    assert_eq!(listing.failure, Some(ControlError::SceneSchemaMismatch { capability: 1 }));
}
