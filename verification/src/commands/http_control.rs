//! Control of one device: the operator's intent, and its resolution against
//! the capabilities of the device into at most one control operation.

use crate::color::{color_value, packed_color};
use crate::error::{ControlError, Instance};
use crate::music::{
    list_music_modes, listed_music_modes, resolve_music_mode, resolved_music_mode,
};
use crate::resolve::{
    resolve_brightness, resolve_power, resolve_temperature, resolved_integer, resolved_power,
};
use crate::scenes::{
    activate_scene, list_scenes, listed_scene_names, listing_failure, resolved_scene,
};
use crate::schema::{capability_named, find_capability, texts, Capability, Device};
use crate::search::first_index;
use crate::value::{ControlRequest, ControlValue};
use vstd::prelude::*;

verus! {

/// What the operator wants of the device.
#[derive(Debug)]
#[allow(inconsistent_fields)]
pub enum SubCommand {
    /// Switch the device on.
    On,
    /// Switch the device off.
    Off,
    /// Set the brightness to a percentage.
    Brightness { percent: u8 },
    /// Set the colour temperature, in kelvin.
    Temperature { kelvin: u32 },
    /// Set the colour.
    Color { color: csscolorparser::Color },
    /// List the scenes, or activate the one named.
    Scene { list: bool, scene: Option<String> },
    /// List the music modes, or enable the one named.
    Music {
        list: bool,
        sensitivity: u8,
        auto_color: bool,
        color: Option<csscolorparser::Color>,
        mode: Option<String>,
    },
}

/// An intent for the device with the identity `id`.
#[derive(Debug)]
pub struct HttpControlCommand {
    pub id: String,
    pub cmd: SubCommand,
}

/// What is to be done for a command: the names to show, in order, and then
/// either a failure, or one control operation, or nothing more.
///
/// The capability of the operation is given by its place: in the list of
/// scene capabilities for a scene, else in the capabilities of the device.
#[derive(Debug)]
pub struct Resolution {
    pub names: Vec<String>,
    pub outcome: Result<Option<ControlRequest>, ControlError>,
}

/// The place of the capability of an instance among those of the device.
pub open spec fn located(device: Device, instance: Instance) -> Result<int, ControlError> {
    match first_index(device.capabilities@, capability_named(instance.spec_name())) {
        Some(at) => Ok(at),
        None => Err(ControlError::CapabilityAbsent { instance }),
    }
}

/// One control operation on the capability at the place `at`.
pub open spec fn operation(at: int, value: ControlValue) -> Result<
    Option<ControlRequest>,
    ControlError,
> {
    Ok(Some(ControlRequest { capability: at as usize, value }))
}

/// The outcome of an intent that sets the capability of `instance` to an
/// integer.
pub open spec fn integer_outcome(device: Device, instance: Instance, input: int) -> Result<
    Option<ControlRequest>,
    ControlError,
> {
    match located(device, instance) {
        Ok(at) => match resolved_integer(device.capabilities@[at].parameters, input, instance) {
            Ok(value) => operation(at, ControlValue::Integer(value)),
            Err(error) => Err(error),
        },
        Err(error) => Err(error),
    }
}

/// The outcome of switching the power.
pub open spec fn power_outcome(device: Device, on: bool) -> Result<
    Option<ControlRequest>,
    ControlError,
> {
    match located(device, Instance::PowerSwitch) {
        Ok(at) => match resolved_power(device.capabilities@[at].parameters, on) {
            Ok(payload) => operation(at, ControlValue::Payload(payload)),
            Err(error) => Err(error),
        },
        Err(error) => Err(error),
    }
}

/// The outcome of setting a colour.
pub open spec fn color_outcome(device: Device, color: csscolorparser::Color) -> Result<
    Option<ControlRequest>,
    ControlError,
> {
    match located(device, Instance::ColorRgb) {
        Ok(at) => operation(at, ControlValue::Integer(packed_color(color))),
        Err(error) => Err(error),
    }
}

/// The outcome of a scene intent. Listing comes first: with it, a name
/// that was given as well is reported as not found once the list is out.
pub open spec fn scene_outcome(scenes: Seq<Capability>, list: bool, scene: Option<String>)
    -> Result<Option<ControlRequest>, ControlError> {
    if list {
        match listing_failure(scenes) {
            Some(error) => Err(error),
            None => match scene {
                Some(_) => Err(ControlError::SceneNotFound),
                None => Ok(None),
            },
        }
    } else {
        match scene {
            Some(name) => match resolved_scene(scenes, name@) {
                Ok(request) => Ok(Some(request)),
                Err(error) => Err(error),
            },
            None => match listing_failure(scenes) {
                Some(error) => Err(error),
                None => Ok(None),
            },
        }
    }
}

/// The outcome of a music intent. Listing comes first, and sends nothing.
pub open spec fn music_outcome(
    device: Device,
    list: bool,
    sensitivity: u8,
    auto_color: bool,
    color: Option<csscolorparser::Color>,
    mode: Option<String>,
) -> Result<Option<ControlRequest>, ControlError> {
    match located(device, Instance::MusicMode) {
        Ok(at) => {
            let parameters = device.capabilities@[at].parameters;
            if list {
                match listed_music_modes(parameters) {
                    Ok(_) => Ok(None),
                    Err(error) => Err(error),
                }
            } else {
                match mode {
                    Some(mode) => match resolved_music_mode(
                        parameters,
                        mode@,
                        sensitivity,
                        auto_color,
                        color,
                    ) {
                        Ok(value) => operation(at, ControlValue::MusicMode(value)),
                        Err(error) => Err(error),
                    },
                    None => Ok(None),
                }
            }
        },
        Err(error) => Err(error),
    }
}

/// The names that a music intent shows.
pub open spec fn music_names(device: Device, list: bool) -> Seq<Seq<char>> {
    match located(device, Instance::MusicMode) {
        Ok(at) => match listed_music_modes(device.capabilities@[at].parameters) {
            Ok(names) if list => names,
            _ => Seq::empty(),
        },
        Err(_) => Seq::empty(),
    }
}

impl SubCommand {
    /// The names that this intent shows: those of the scenes or of the music
    /// modes where it asks for the list, none otherwise.
    pub open spec fn names(self, device: Device, scenes: Seq<Capability>) -> Seq<Seq<char>> {
        match self {
            SubCommand::Scene { list, .. } => if list {
                listed_scene_names(scenes)
            } else {
                Seq::empty()
            },
            SubCommand::Music { list, .. } => music_names(device, list),
            _ => Seq::empty(),
        }
    }

    /// What this intent comes to on a device with these scene capabilities.
    pub open spec fn outcome(self, device: Device, scenes: Seq<Capability>) -> Result<
        Option<ControlRequest>,
        ControlError,
    > {
        match self {
            SubCommand::On => power_outcome(device, true),
            SubCommand::Off => power_outcome(device, false),
            SubCommand::Brightness { percent } => integer_outcome(
                device,
                Instance::Brightness,
                percent as int,
            ),
            SubCommand::Temperature { kelvin } => integer_outcome(
                device,
                Instance::ColorTemperatureK,
                kelvin as int,
            ),
            SubCommand::Color { color } => color_outcome(device, color),
            SubCommand::Scene { list, scene } => scene_outcome(scenes, list, scene),
            SubCommand::Music { list, sensitivity, auto_color, color, mode } => music_outcome(
                device,
                list,
                sensitivity,
                auto_color,
                color,
                mode,
            ),
        }
    }
}

/// Finds the capability of an instance among those of the device.
pub fn locate(device: &Device, instance: Instance) -> (found: Result<usize, ControlError>)
    ensures
        match found {
            Ok(at) => located(*device, instance) == Ok::<int, ControlError>(at as int),
            Err(error) => located(*device, instance) == Err::<int, ControlError>(error),
        },
{
    match find_capability(&device.capabilities, instance.name()) {
        Some(at) => Ok(at),
        None => Err(ControlError::CapabilityAbsent { instance }),
    }
}

fn none_shown() -> (names: Vec<String>)
    ensures
        texts(names@) == Seq::<Seq<char>>::empty(),
{
    let names: Vec<String> = Vec::new();
    assert(texts(names@) == Seq::<Seq<char>>::empty());
    names
}

fn resolve_scene_intent(scenes: &Vec<Capability>, list: bool, scene: &Option<String>) -> (done:
    Resolution)
    ensures
        texts(done.names@) == (if list {
            listed_scene_names(scenes@)
        } else {
            Seq::empty()
        }),
        done.outcome == scene_outcome(scenes@, list, *scene),
{
    if list {
        let listing = list_scenes(scenes);
        let outcome = match listing.failure {
            Some(error) => Err(error),
            None => match scene {
                Some(_) => Err(ControlError::SceneNotFound),
                None => Ok(None),
            },
        };
        Resolution { names: listing.names, outcome }
    } else {
        let outcome = match scene {
            Some(name) => match activate_scene(scenes, name.as_str()) {
                Ok(request) => Ok(Some(request)),
                Err(error) => Err(error),
            },
            None => match list_scenes(scenes).failure {
                Some(error) => Err(error),
                None => Ok(None),
            },
        };
        Resolution { names: none_shown(), outcome }
    }
}

fn resolve_music_intent(
    device: &Device,
    list: bool,
    sensitivity: u8,
    auto_color: bool,
    color: &Option<csscolorparser::Color>,
    mode: &Option<String>,
) -> (done: Resolution)
    ensures
        texts(done.names@) == music_names(*device, list),
        done.outcome == music_outcome(*device, list, sensitivity, auto_color, *color, *mode),
{
    let at = match locate(device, Instance::MusicMode) {
        Ok(at) => at,
        Err(error) => {
            return Resolution { names: none_shown(), outcome: Err(error) };
        },
    };
    let parameters = &device.capabilities[at].parameters;
    if list {
        match list_music_modes(parameters) {
            Ok(names) => Resolution { names, outcome: Ok(None) },
            Err(error) => Resolution { names: none_shown(), outcome: Err(error) },
        }
    } else {
        let outcome = match mode {
            Some(mode) => match resolve_music_mode(
                parameters,
                mode.as_str(),
                sensitivity,
                auto_color,
                color.as_ref(),
            ) {
                Ok(value) => Ok(
                    Some(ControlRequest { capability: at, value: ControlValue::MusicMode(value) }),
                ),
                Err(error) => Err(error),
            },
            None => Ok(None),
        };
        Resolution { names: none_shown(), outcome }
    }
}

fn resolve_power_intent(device: &Device, on: bool) -> (outcome: Result<
    Option<ControlRequest>,
    ControlError,
>)
    ensures
        outcome == power_outcome(*device, on),
{
    let at = locate(device, Instance::PowerSwitch)?;
    let payload = resolve_power(&device.capabilities[at].parameters, on)?;
    Ok(Some(ControlRequest { capability: at, value: ControlValue::Payload(payload) }))
}

impl HttpControlCommand {
    /// Whether the scene capabilities of the device are needed to resolve
    /// this command.
    pub fn uses_scenes(&self) -> (needed: bool)
        ensures
            needed == (self.cmd is Scene),
    {
        match &self.cmd {
            SubCommand::Scene { .. } => true,
            _ => false,
        }
    }

    /// Resolves the command against the capabilities of the device and, for
    /// a scene, against its scene capabilities: the names to show, and the
    /// one control operation to send, or the failure. Nothing is sent or
    /// shown here.
    pub fn run(&self, device: &Device, scenes: &Vec<Capability>) -> (done: Resolution)
        ensures
            texts(done.names@) == self.cmd.names(*device, scenes@),
            done.outcome == self.cmd.outcome(*device, scenes@),
    {
        match &self.cmd {
            SubCommand::On => Resolution {
                names: none_shown(),
                outcome: resolve_power_intent(device, true),
            },
            SubCommand::Off => Resolution {
                names: none_shown(),
                outcome: resolve_power_intent(device, false),
            },
            SubCommand::Brightness { percent } => {
                let outcome = match locate(device, Instance::Brightness) {
                    Ok(at) => match resolve_brightness(
                        &device.capabilities[at].parameters,
                        *percent,
                    ) {
                        Ok(value) => Ok(
                            Some(
                                ControlRequest {
                                    capability: at,
                                    value: ControlValue::Integer(value),
                                },
                            ),
                        ),
                        Err(error) => Err(error),
                    },
                    Err(error) => Err(error),
                };
                Resolution { names: none_shown(), outcome }
            },
            SubCommand::Temperature { kelvin } => {
                let outcome = match locate(device, Instance::ColorTemperatureK) {
                    Ok(at) => match resolve_temperature(
                        &device.capabilities[at].parameters,
                        *kelvin,
                    ) {
                        Ok(value) => Ok(
                            Some(
                                ControlRequest {
                                    capability: at,
                                    value: ControlValue::Integer(value),
                                },
                            ),
                        ),
                        Err(error) => Err(error),
                    },
                    Err(error) => Err(error),
                };
                Resolution { names: none_shown(), outcome }
            },
            SubCommand::Color { color } => {
                let outcome = match locate(device, Instance::ColorRgb) {
                    Ok(at) => Ok(
                        Some(
                            ControlRequest {
                                capability: at,
                                value: ControlValue::Integer(color_value(color)),
                            },
                        ),
                    ),
                    Err(error) => Err(error),
                };
                Resolution { names: none_shown(), outcome }
            },
            SubCommand::Scene { list, scene } => resolve_scene_intent(scenes, *list, scene),
            SubCommand::Music { list, sensitivity, auto_color, color, mode } => {
                resolve_music_intent(device, *list, *sensitivity, *auto_color, color, mode)
            },
        }
    }
}

} // verus!
