use somfy_cli::formatter::{pad_left3, DeviceState, DeviceStateValue, HumanFriendly, Searchable};
use somfy_cli::text::{bool_to_string, i64_to_decimal, u64_to_decimal, u8_to_decimal};

fn state(name: &str, value: DeviceStateValue) -> DeviceState {
    DeviceState { value, name: name.to_string(), state_type: 1 }
}

#[test]
fn test_human_friendly_string_values() {
    assert_eq!(
        DeviceStateValue::String("open".to_string()).to_human_friendly_string(),
        "open"
    );
    assert_eq!(DeviceStateValue::Int(42).to_human_friendly_string(), "42");
    assert_eq!(DeviceStateValue::Int(-7).to_human_friendly_string(), "-7");
    assert_eq!(DeviceStateValue::Mapping.to_human_friendly_string(), "Map");
    assert_eq!(DeviceStateValue::Array.to_human_friendly_string(), "Array");
    assert_eq!(DeviceStateValue::Boolean(true).to_human_friendly_string(), "true");
    assert_eq!(DeviceStateValue::Boolean(false).to_human_friendly_string(), "false");
}

#[test]
fn test_find_by_name_first_match() {
    let states = vec![
        state("core:StatusState", DeviceStateValue::String("available".to_string())),
        state("core:ClosureState", DeviceStateValue::Int(25)),
        state("core:ClosureState", DeviceStateValue::Int(99)),
    ];

    let found = states.find_by_name("core:ClosureState").unwrap();
    assert_eq!(found.name, "core:ClosureState");
    assert_eq!(found.value.to_human_friendly_string(), "25");

    assert!(states.find_by_name("core:MovingState").is_none());
}

#[test]
fn test_value_from_name_pads_to_three() {
    let states = vec![
        state("core:ClosureState", DeviceStateValue::Int(5)),
        state("core:OpenClosedState", DeviceStateValue::String("open".to_string())),
    ];

    assert_eq!(states.value_from_name("core:ClosureState"), "  5");
    assert_eq!(states.value_from_name("core:OpenClosedState"), "open");
    assert_eq!(states.value_from_name("core:MovingState"), "   ");
}

#[test]
fn test_pad_left3_widths() {
    assert_eq!(pad_left3(String::new()), "   ");
    assert_eq!(pad_left3("7".to_string()), "  7");
    assert_eq!(pad_left3("42".to_string()), " 42");
    assert_eq!(pad_left3("100".to_string()), "100");
    assert_eq!(pad_left3("hello".to_string()), "hello");
}

#[test]
fn test_decimal_renderings() {
    assert_eq!(u8_to_decimal(0), "0");
    assert_eq!(u8_to_decimal(42), "42");
    assert_eq!(u8_to_decimal(255), "255");
    assert_eq!(u64_to_decimal(1000), "1000");
    assert_eq!(u64_to_decimal(18446744073709551615), "18446744073709551615");
    assert_eq!(i64_to_decimal(0), "0");
    assert_eq!(i64_to_decimal(-1), "-1");
    assert_eq!(i64_to_decimal(i64::MIN), "-9223372036854775808");
    assert_eq!(i64_to_decimal(i64::MAX), "9223372036854775807");
    assert_eq!(bool_to_string(true), "true");
    assert_eq!(bool_to_string(false), "false");
}
