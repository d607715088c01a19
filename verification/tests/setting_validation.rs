use har_sdv::user_preferences::setting::{
    Constraints, FloatConstraints, Int32Constraints, Int64Constraints, Setting, SettingKind,
    SettingValue,
};

fn int32_setting(min: i32, max: i32) -> Setting {
    Setting {
        name: String::from("test"),
        value: SettingValue::Int32(min),
        kind: SettingKind::PerUser,
        default_value: SettingValue::Int32(min),
        constraints: Some(Constraints::Int32Constraints(Int32Constraints {
            min_value: Some(min),
            max_value: Some(max),
        })),
    }
}

fn int64_setting(min: i64, max: i64) -> Setting {
    Setting {
        name: String::from("test"),
        value: SettingValue::Int64(min),
        kind: SettingKind::PerUser,
        default_value: SettingValue::Int64(min),
        constraints: Some(Constraints::Int64Constraints(Int64Constraints {
            min_value: Some(min),
            max_value: Some(max),
        })),
    }
}

fn float_setting(min: f32, max: f32) -> Setting {
    Setting {
        name: String::from("test"),
        value: SettingValue::Float(min.to_bits()),
        kind: SettingKind::PerUser,
        default_value: SettingValue::Float(min.to_bits()),
        constraints: Some(Constraints::FloatConstraints(FloatConstraints {
            min_value: Some(min.to_bits()),
            max_value: Some(max.to_bits()),
        })),
    }
}

#[test]
fn is_valid_value_returns_true_for_valid_int_32() {
    let setting = int32_setting(1, 10);
    assert_eq!(setting.is_valid_value(&SettingValue::Int32(2)), true);
}

#[test]
fn is_valid_value_returns_false_for_too_low_int_32() {
    let setting = int32_setting(1, 10);
    assert_eq!(setting.is_valid_value(&SettingValue::Int32(0)), false);
}

#[test]
fn is_valid_value_returns_false_for_too_high_int_32() {
    let setting = int32_setting(1, 10);
    assert_eq!(setting.is_valid_value(&SettingValue::Int32(100)), false);
}

#[test]
fn is_valid_value_returns_true_for_valid_int_64() {
    let setting = int64_setting(1, 10);
    assert_eq!(setting.is_valid_value(&SettingValue::Int64(2)), true);
}

#[test]
fn is_valid_value_returns_false_for_too_low_int_64() {
    let setting = int64_setting(1, 10);
    assert_eq!(setting.is_valid_value(&SettingValue::Int64(0)), false);
}

#[test]
fn is_valid_value_returns_false_for_too_high_int_64() {
    let setting = int64_setting(1, 10);
    assert_eq!(setting.is_valid_value(&SettingValue::Int64(100)), false);
}

#[test]
fn is_valid_value_returns_true_for_valid_float() {
    let setting = float_setting(1.0, 10.0);
    assert_eq!(setting.is_valid_value(&SettingValue::Float(2.0f32.to_bits())), true);
}

#[test]
fn is_valid_value_returns_false_for_too_low_float() {
    let setting = float_setting(1.0, 10.0);
    assert_eq!(setting.is_valid_value(&SettingValue::Float(0.0f32.to_bits())), false);
}

#[test]
fn is_valid_value_returns_false_for_too_high_float() {
    let setting = float_setting(1.0, 10.0);
    assert_eq!(setting.is_valid_value(&SettingValue::Float(100.0f32.to_bits())), false);
}

#[test]
fn is_valid_value_returns_false_when_current_and_new_value_have_different_types() {
    let setting = Setting {
        name: String::from("test"),
        value: SettingValue::Int32(1),
        kind: SettingKind::PerUser,
        default_value: SettingValue::Int32(2),
        constraints: None,
    };
    assert!(!setting.is_valid_value(&SettingValue::Float(1.0f32.to_bits())));
}

#[test]
fn set_value_keeps_valid_values_and_reset_restores_the_default() {
    let mut setting = int32_setting(1, 10);
    assert!(setting.set_value(SettingValue::Int32(7)).is_ok());
    assert!(matches!(setting.value, SettingValue::Int32(7)));
    let rejected = setting.set_value(SettingValue::Int32(11)).unwrap_err();
    assert!(matches!(rejected.value, SettingValue::Int32(7)));
    assert!(matches!(setting.value, SettingValue::Int32(7)));
    setting.reset();
    assert!(matches!(setting.value, SettingValue::Int32(1)));
}

#[test]
fn float_bounds_follow_ieee_order() {
    let setting = float_setting(-1.0, 1.0);
    assert!(setting.is_valid_value(&SettingValue::Float((-0.0f32).to_bits())));
    assert!(setting.is_valid_value(&SettingValue::Float(1.0f32.to_bits())));
    assert!(!setting.is_valid_value(&SettingValue::Float(f32::NAN.to_bits())));
    assert!(!setting.is_valid_value(&SettingValue::Float((-1.5f32).to_bits())));
}
