//! What is announced to a home-automation hub over MQTT.

pub mod scene;
