use light_control::error::{ControlError, ErrorKind, Instance};
use light_control::resolve::{
    clamp_to_range, resolve_brightness, resolve_power, resolve_temperature,
};
use light_control::schema::{DeviceParameters, EnumOption, IntegerRange, StructField};

fn integer_schema(min: u32, max: u32) -> DeviceParameters {
    DeviceParameters::Integer { range: IntegerRange { min, max, step: Some(1) } }
}

fn choice(name: &str, value: u64) -> EnumOption {
    EnumOption { name: name.to_string(), value: serde_json::Value::from(value) }
}

fn switch_schema() -> DeviceParameters {
    DeviceParameters::Enum { options: vec![choice("on", 1), choice("off", 0)] }
}

#[test]
fn brightness_is_clamped_into_the_range() {
    let schema = integer_schema(1, 100);
    assert_eq!(resolve_brightness(&schema, 0), Ok(1));
    assert_eq!(resolve_brightness(&schema, 1), Ok(1));
    assert_eq!(resolve_brightness(&schema, 40), Ok(40));
    assert_eq!(resolve_brightness(&schema, 100), Ok(100));
    assert_eq!(resolve_brightness(&schema, 101), Ok(100));
    assert_eq!(resolve_brightness(&schema, 255), Ok(100));
}

#[test]
fn brightness_is_not_rescaled() {
    // The percentage is the raw value, also where the range is wider.
    let schema = integer_schema(0, 254);
    assert_eq!(resolve_brightness(&schema, 50), Ok(50));
    assert_eq!(resolve_brightness(&schema, 100), Ok(100));
    assert_eq!(resolve_brightness(&schema, 255), Ok(254));
}

#[test]
fn temperature_is_clamped_into_the_range() {
    let schema = integer_schema(2000, 9000);
    assert_eq!(resolve_temperature(&schema, 0), Ok(2000));
    assert_eq!(resolve_temperature(&schema, 1999), Ok(2000));
    assert_eq!(resolve_temperature(&schema, 2000), Ok(2000));
    assert_eq!(resolve_temperature(&schema, 6500), Ok(6500));
    assert_eq!(resolve_temperature(&schema, 9000), Ok(9000));
    assert_eq!(resolve_temperature(&schema, 9001), Ok(9000));
    assert_eq!(resolve_temperature(&schema, u32::MAX), Ok(9000));
}

#[test]
fn clamping_gives_the_nearest_bound() {
    let range = IntegerRange { min: 10, max: 20, step: None };
    assert_eq!(clamp_to_range(0, &range), Some(10));
    assert_eq!(clamp_to_range(10, &range), Some(10));
    assert_eq!(clamp_to_range(15, &range), Some(15));
    assert_eq!(clamp_to_range(20, &range), Some(20));
    assert_eq!(clamp_to_range(21, &range), Some(20));
}

#[test]
fn clamping_of_a_single_point_range() {
    let range = IntegerRange { min: 7, max: 7, step: None };
    assert_eq!(clamp_to_range(0, &range), Some(7));
    assert_eq!(clamp_to_range(7, &range), Some(7));
    assert_eq!(clamp_to_range(8, &range), Some(7));
}

#[test]
fn range_with_bounds_out_of_order_holds_no_value() {
    let range = IntegerRange { min: 10, max: 5, step: None };
    assert_eq!(clamp_to_range(0, &range), None);
    assert_eq!(clamp_to_range(7, &range), None);
    assert_eq!(clamp_to_range(20, &range), None);
}

#[test]
fn integer_intents_fail_on_bounds_out_of_order() {
    let schema = integer_schema(10, 5);
    for percent in [0u8, 5, 7, 10, 255] {
        let error = resolve_brightness(&schema, percent).unwrap_err();
        assert_eq!(error, ControlError::InvalidRange { instance: Instance::Brightness });
        assert_eq!(error.kind(), ErrorKind::SchemaMismatch);
    }
    for kelvin in [0u32, 5, 7, 10, u32::MAX] {
        assert_eq!(
            resolve_temperature(&schema, kelvin),
            Err(ControlError::InvalidRange { instance: Instance::ColorTemperatureK })
        );
    }
    // One step apart the other way round is a range again.
    assert_eq!(resolve_temperature(&integer_schema(5, 6), 7), Ok(6));
}

#[test]
fn integer_intents_need_an_integer_schema() {
    let error = resolve_brightness(&switch_schema(), 40).unwrap_err();
    assert_eq!(error, ControlError::SchemaMismatch { instance: Instance::Brightness });
    assert_eq!(error.kind(), ErrorKind::SchemaMismatch);
    let structure = DeviceParameters::Struct { fields: vec![] };
    assert_eq!(
        resolve_temperature(&structure, 4000),
        Err(ControlError::SchemaMismatch { instance: Instance::ColorTemperatureK })
    );
}

#[test]
fn power_takes_the_payload_of_the_option() {
    let schema = switch_schema();
    assert_eq!(resolve_power(&schema, true).unwrap(), serde_json::Value::from(1u64));
    assert_eq!(resolve_power(&schema, false).unwrap(), serde_json::Value::from(0u64));
}

#[test]
fn power_takes_the_first_of_two_options_of_one_name() {
    let schema = DeviceParameters::Enum {
        options: vec![choice("off", 0), choice("on", 7), choice("on", 8)],
    };
    assert_eq!(resolve_power(&schema, true).unwrap(), serde_json::Value::from(7u64));
}

#[test]
fn power_is_matched_in_exact_case() {
    let schema = DeviceParameters::Enum { options: vec![choice("On", 1), choice("OFF", 0)] };
    let error = resolve_power(&schema, true).unwrap_err();
    assert_eq!(error, ControlError::PowerStateNotFound);
    assert_eq!(error.kind(), ErrorKind::ValueNotFound);
    assert_eq!(resolve_power(&schema, false).unwrap_err(), ControlError::PowerStateNotFound);
}

#[test]
fn power_fails_on_an_enumeration_without_options() {
    let schema = DeviceParameters::Enum { options: vec![] };
    assert_eq!(resolve_power(&schema, true).unwrap_err(), ControlError::PowerStateNotFound);
}

#[test]
fn power_needs_an_enumeration() {
    let error = resolve_power(&integer_schema(0, 1), true).unwrap_err();
    assert_eq!(error, ControlError::SchemaMismatch { instance: Instance::PowerSwitch });
    let structure = DeviceParameters::Struct {
        fields: vec![StructField { field_name: "on".to_string(), field_type: switch_schema() }],
    };
    assert_eq!(
        resolve_power(&structure, true).unwrap_err(),
        ControlError::SchemaMismatch { instance: Instance::PowerSwitch }
    );
}
