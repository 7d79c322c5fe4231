//! What is sent to a device: a capability and the value for it.

use vstd::prelude::*;

verus! {

/// The composite value that switches music mode on.
#[derive(Debug)]
pub struct MusicModeValue {
    /// The payload of the chosen mode, as the schema gives it.
    pub music_mode: serde_json::Value,
    /// How strongly the light follows sound, 0 to 255, as it was asked.
    pub sensitivity: u8,
    /// 1 where colours are picked automatically, else 0.
    pub auto_color: u8,
    /// The packed colour, where one was asked for.
    pub rgb: Option<u32>,
}

/// A value in the shape that the targeted schema asks for.
#[derive(Debug)]
pub enum ControlValue {
    /// A bare integer: brightness, colour temperature, packed colour.
    Integer(u32),
    /// The payload of an option, handed back as the schema gives it.
    Payload(serde_json::Value),
    /// The music-mode composite.
    MusicMode(MusicModeValue),
}

/// One control operation: the capability, by its place in the list that was
/// searched, and the value to set.
#[derive(Debug)]
pub struct ControlRequest {
    pub capability: usize,
    pub value: ControlValue,
}

} // verus!
