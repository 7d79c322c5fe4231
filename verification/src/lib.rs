//! Capability resolution for smart lighting devices: a device describes what
//! it can be told through a schema discovered at run time, and this crate
//! turns an operator's intent into the one control value that fits it.

pub mod color;
pub mod commands;
pub mod error;
pub mod hass_mqtt;
pub mod music;
pub mod resolve;
pub mod scenes;
pub mod schema;
pub mod search;
pub mod text;
pub mod value;
