//! From an intent and the schema of its capability to the control value:
//! power, brightness, colour temperature.

use crate::error::{ControlError, ErrorKind, Instance};
use crate::schema::{
    find_option_named, option_named, DeviceParameters, EnumOption, IntegerRange,
};
use crate::search::{first_index, lemma_first_index_none};
use vstd::prelude::*;

verus! {

/// `input` clamped between `min` and `max`, for bounds in order: the input
/// itself where it lies within them, else the bound nearest to it.
pub open spec fn clamped(input: int, min: int, max: int) -> int {
    if input < min {
        min
    } else if input > max {
        max
    } else {
        input
    }
}

/// The name of the power option that switches the device on, or off.
pub open spec fn power_literal(on: bool) -> Seq<char> {
    if on {
        "on"@
    } else {
        "off"@
    }
}

/// What the power intent resolves to.
pub open spec fn resolved_power(parameters: DeviceParameters, on: bool) -> Result<
    serde_json::Value,
    ControlError,
> {
    match parameters {
        DeviceParameters::Enum { options } => match first_index(
            options@,
            option_named(power_literal(on)),
        ) {
            Some(at) => Ok(options@[at].value),
            None => Err(ControlError::PowerStateNotFound),
        },
        _ => Err(ControlError::SchemaMismatch { instance: Instance::PowerSwitch }),
    }
}

/// What an intent with an integer input resolves to: the input clamped
/// between the bounds of an integer schema. A range whose bounds are out of
/// order holds no value and is not repaired: it is a failure.
pub open spec fn resolved_integer(parameters: DeviceParameters, input: int, instance: Instance)
    -> Result<u32, ControlError> {
    match parameters {
        DeviceParameters::Integer { range } => if range.min <= range.max {
            Ok(clamped(input, range.min as int, range.max as int) as u32)
        } else {
            Err(ControlError::InvalidRange { instance })
        },
        _ => Err(ControlError::SchemaMismatch { instance }),
    }
}

/// For bounds in order, the clamped input is the input where it lies within
/// them, and else the bound nearest to it.
pub proof fn lemma_clamped_to_nearest(input: int, min: int, max: int)
    requires
        min <= max,
    ensures
        min <= clamped(input, min, max) <= max,
        min <= input <= max ==> clamped(input, min, max) == input,
        input < min ==> clamped(input, min, max) == min,
        input > max ==> clamped(input, min, max) == max,
{
}

/// Brightness and colour temperature resolve, on an integer schema whose
/// bounds are in order, to the input clamped between the bounds: to the input
/// itself within them, without any rescaling, and to the nearest bound
/// outside.
pub proof fn lemma_integer_is_clamped(parameters: DeviceParameters, input: int, instance: Instance)
    requires
        parameters is Integer,
        parameters->range.min <= parameters->range.max,
        0 <= input <= u32::MAX,
    ensures
        resolved_integer(parameters, input, instance) matches Ok(value) && {
            let range = parameters->range;
            &&& range.min <= value <= range.max
            &&& range.min <= input <= range.max ==> value == input
            &&& input < range.min ==> value == range.min
            &&& input > range.max ==> value == range.max
        },
{
}

/// On an integer schema whose lower bound is above the upper one, brightness
/// and colour temperature fail, whatever the input: nothing is sent.
pub proof fn lemma_integer_needs_bounds_in_order(
    parameters: DeviceParameters,
    input: int,
    instance: Instance,
)
    requires
        parameters is Integer,
        parameters->range.min > parameters->range.max,
    ensures
        resolved_integer(parameters, input, instance) == Err::<u32, ControlError>(
            (ControlError::InvalidRange { instance }),
        ),
        (ControlError::InvalidRange { instance }).spec_kind() == ErrorKind::SchemaMismatch,
{
}

/// Power is matched exactly: it resolves if and only if some option carries
/// the very name `on` (or `off`), letter for letter; a name that differs from
/// it, be it only in case, does not count.
pub proof fn lemma_power_is_exact(options: Vec<EnumOption>, on: bool)
    ensures
        resolved_power(DeviceParameters::Enum { options }, on) is Ok <==> exists|at: int|
            0 <= at < options@.len() && (#[trigger] options@[at]).name@ == power_literal(on),
{
    lemma_first_index_none(options@, option_named(power_literal(on)));
}

/// Clamps `input` into the range, with no rescaling. A range whose bounds
/// are out of order holds no value: there is nothing to clamp to.
pub fn clamp_to_range(input: u32, range: &IntegerRange) -> (value: Option<u32>)
    ensures
        value == if range.min <= range.max {
            Some(clamped(input as int, range.min as int, range.max as int) as u32)
        } else {
            None
        },
{
    if range.min > range.max {
        None
    } else if input < range.min {
        Some(range.min)
    } else if input > range.max {
        Some(range.max)
    } else {
        Some(input)
    }
}

/// Power: the payload of the option called `on`, or `off`, in exactly that
/// spelling.
pub fn resolve_power(parameters: &DeviceParameters, on: bool) -> (value: Result<
    serde_json::Value,
    ControlError,
>)
    ensures
        value == resolved_power(*parameters, on),
{
    let literal = if on {
        "on"
    } else {
        "off"
    };
    match parameters {
        DeviceParameters::Enum { options } => match find_option_named(options, literal) {
            Some(at) => Ok(options[at].value.clone()),
            None => Err(ControlError::PowerStateNotFound),
        },
        _ => Err(ControlError::SchemaMismatch { instance: Instance::PowerSwitch }),
    }
}

/// Brightness: the percentage itself, clamped into the range of the schema.
/// It fails on a schema that is no integer, and on a range out of order.
pub fn resolve_brightness(parameters: &DeviceParameters, percent: u8) -> (value: Result<
    u32,
    ControlError,
>)
    ensures
        value == resolved_integer(*parameters, percent as int, Instance::Brightness),
{
    match parameters {
        DeviceParameters::Integer { range } => match clamp_to_range(percent as u32, range) {
            Some(value) => Ok(value),
            None => Err(ControlError::InvalidRange { instance: Instance::Brightness }),
        },
        _ => Err(ControlError::SchemaMismatch { instance: Instance::Brightness }),
    }
}

/// Colour temperature: the kelvin value, clamped into the range of the
/// schema. It fails on a schema that is no integer, and on a range out of
/// order.
pub fn resolve_temperature(parameters: &DeviceParameters, kelvin: u32) -> (value: Result<
    u32,
    ControlError,
>)
    ensures
        value == resolved_integer(*parameters, kelvin as int, Instance::ColorTemperatureK),
{
    match parameters {
        DeviceParameters::Integer { range } => match clamp_to_range(kelvin, range) {
            Some(value) => Ok(value),
            None => Err(ControlError::InvalidRange { instance: Instance::ColorTemperatureK }),
        },
        _ => Err(ControlError::SchemaMismatch { instance: Instance::ColorTemperatureK }),
    }
}

} // verus!
