use light_control::hass_mqtt::scene::{EntityConfig, SceneConfig};

fn scene(unique_id: &str) -> SceneConfig {
    SceneConfig {
        base: EntityConfig { unique_id: unique_id.to_string() },
        command_topic: "lights/oneclick".to_string(),
        payload_on: "Relax".to_string(),
    }
}

#[test]
fn scene_is_announced_below_the_discovery_prefix() {
    assert_eq!(
        scene("lamp-1-relax").config_topic("homeassistant"),
        "homeassistant/scene/lamp-1-relax/config"
    );
}

#[test]
fn announcement_topic_takes_prefix_and_identity_as_they_are() {
    assert_eq!(scene("").config_topic(""), "/scene//config");
    assert_eq!(scene("a/b").config_topic("x/y"), "x/y/scene/a/b/config");
}
