//! Why an intent could not be resolved.

use vstd::prelude::*;

verus! {

/// The capabilities that are looked up by their instance name.
#[derive(Clone, Copy, Debug, PartialEq, Eq, Structural)]
pub enum Instance {
    PowerSwitch,
    Brightness,
    ColorTemperatureK,
    ColorRgb,
    MusicMode,
}

impl Instance {
    /// The instance name as devices spell it.
    pub open spec fn spec_name(self) -> Seq<char> {
        match self {
            Instance::PowerSwitch => "powerSwitch"@,
            Instance::Brightness => "brightness"@,
            Instance::ColorTemperatureK => "colorTemperatureK"@,
            Instance::ColorRgb => "colorRgb"@,
            Instance::MusicMode => "musicMode"@,
        }
    }

    /// The instance name as devices spell it.
    pub fn name(self) -> (name: &'static str)
        ensures
            name@ == self.spec_name(),
    {
        match self {
            Instance::PowerSwitch => "powerSwitch",
            Instance::Brightness => "brightness",
            Instance::ColorTemperatureK => "colorTemperatureK",
            Instance::ColorRgb => "colorRgb",
            Instance::MusicMode => "musicMode",
        }
    }
}

/// The broad kinds of failure.
#[derive(Clone, Copy, Debug, PartialEq, Eq, Structural)]
pub enum ErrorKind {
    /// The device has no capability of the instance that the intent needs.
    CapabilityAbsent,
    /// The capability is there, but its schema has another shape than the
    /// intent needs.
    SchemaMismatch,
    /// The schema fits, but does not hold what was asked for.
    ValueNotFound,
}

/// A failed resolution. Each is final: nothing is retried or repaired.
#[derive(Clone, Copy, Debug, PartialEq, Eq, Structural)]
pub enum ControlError {
    /// The device has no capability of this instance.
    CapabilityAbsent { instance: Instance },
    /// The capability of this instance does not have the schema that the
    /// intent needs.
    SchemaMismatch { instance: Instance },
    /// The integer range of the capability of this instance has its lower
    /// bound above its upper bound, so that no value lies within it.
    InvalidRange { instance: Instance },
    /// The scene capability at this place of the list is not an enumeration.
    SceneSchemaMismatch { capability: usize },
    /// The power switch has no option called `on` (or `off`).
    PowerStateNotFound,
    /// No scene capability has an option of the requested name.
    SceneNotFound,
    /// The music-mode structure has no field named `musicMode`.
    MusicModeFieldNotFound,
    /// The music-mode enumeration has no option of the requested name.
    MusicModeNotFound,
}

impl ControlError {
    /// The kind that this failure belongs to.
    pub open spec fn spec_kind(self) -> ErrorKind {
        match self {
            ControlError::CapabilityAbsent { .. } => ErrorKind::CapabilityAbsent,
            ControlError::SchemaMismatch { .. } => ErrorKind::SchemaMismatch,
            ControlError::InvalidRange { .. } => ErrorKind::SchemaMismatch,
            ControlError::SceneSchemaMismatch { .. } => ErrorKind::SchemaMismatch,
            ControlError::PowerStateNotFound => ErrorKind::ValueNotFound,
            ControlError::SceneNotFound => ErrorKind::ValueNotFound,
            ControlError::MusicModeFieldNotFound => ErrorKind::ValueNotFound,
            ControlError::MusicModeNotFound => ErrorKind::ValueNotFound,
        }
    }

    /// The kind that this failure belongs to.
    pub fn kind(&self) -> (kind: ErrorKind)
        ensures
            kind == self.spec_kind(),
    {
        match self {
            ControlError::CapabilityAbsent { .. } => ErrorKind::CapabilityAbsent,
            ControlError::SchemaMismatch { .. } => ErrorKind::SchemaMismatch,
            ControlError::InvalidRange { .. } => ErrorKind::SchemaMismatch,
            ControlError::SceneSchemaMismatch { .. } => ErrorKind::SchemaMismatch,
            ControlError::PowerStateNotFound => ErrorKind::ValueNotFound,
            ControlError::SceneNotFound => ErrorKind::ValueNotFound,
            ControlError::MusicModeFieldNotFound => ErrorKind::ValueNotFound,
            ControlError::MusicModeNotFound => ErrorKind::ValueNotFound,
        }
    }
}

} // verus!
