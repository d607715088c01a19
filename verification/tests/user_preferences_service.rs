use har_sdv::user_preferences::errors::{ChangeRejection, ErrorReason, ResponseCode};
use har_sdv::user_preferences::service::{
    apply_settings_outcome, reset_services_outcome, UserPreferencesServiceImpl,
};
use har_sdv::user_preferences::setting::{
    Constraints, EnumConstraints, Int32Constraints, SettingAndConstraints, SettingDefinition,
    SettingKind, SettingProto, SettingValue,
};
use har_sdv::user_preferences::settings_group_id::SettingsGroupId;
use har_sdv::user_preferences::vehicle_configuration::{
    User, USER_FLAG_DRIVER, USER_FLAG_EPHEMERAL,
};

fn int_definition(key: &str, kind: SettingKind, default: i32) -> SettingDefinition {
    SettingDefinition {
        kind,
        setting_and_constraints: Some(SettingAndConstraints {
            setting: Some(SettingProto {
                key: key.to_string(),
                value: Some(SettingValue::Int32(default)),
            }),
            constraints: Some(Constraints::Int32Constraints(Int32Constraints {
                min_value: Some(0),
                max_value: Some(100),
            })),
        }),
    }
}

fn enum_definition(key: &str, default: i32) -> SettingDefinition {
    SettingDefinition {
        kind: SettingKind::PerUser,
        setting_and_constraints: Some(SettingAndConstraints {
            setting: Some(SettingProto {
                key: key.to_string(),
                value: Some(SettingValue::Enum(default)),
            }),
            constraints: Some(Constraints::EnumConstraints(EnumConstraints {
                possible_values: vec![0, 1],
            })),
        }),
    }
}

fn hvac_id() -> SettingsGroupId {
    SettingsGroupId::new("HvacService".to_string(), "Climate".to_string())
}

fn registered_service() -> UserPreferencesServiceImpl {
    let mut service = UserPreferencesServiceImpl::new();
    service.register_settings(
        "HvacService".to_string(),
        "Climate".to_string(),
        "1.0".to_string(),
        vec![
            int_definition("TEMPERATURE", SettingKind::PerUser, 21),
            int_definition("FAN", SettingKind::Global, 3),
            enum_definition("UNITS", 1),
        ],
    );
    service
}

fn driver(id: i32) -> Option<User> {
    Some(User { id, flags: USER_FLAG_DRIVER })
}

fn value_of(protos: &[SettingProto], key: &str) -> Option<i32> {
    protos.iter().find(|p| p.key == key).and_then(|p| match p.value {
        Some(SettingValue::Int32(v)) => Some(v),
        Some(SettingValue::Enum(v)) => Some(v),
        _ => None,
    })
}

#[test]
fn new_service_has_no_users() {
    let service = UserPreferencesServiceImpl::new();
    assert!(service.list_users().is_empty());
    assert_eq!(service.current_user_id(), None);
}

#[test]
fn valid_user_flags_are_driver_with_optional_ephemeral() {
    assert!(UserPreferencesServiceImpl::are_valid_user_flags(USER_FLAG_DRIVER));
    assert!(UserPreferencesServiceImpl::are_valid_user_flags(
        USER_FLAG_DRIVER | USER_FLAG_EPHEMERAL
    ));
    assert!(!UserPreferencesServiceImpl::are_valid_user_flags(USER_FLAG_EPHEMERAL));
    assert!(!UserPreferencesServiceImpl::are_valid_user_flags(0));
    assert!(!UserPreferencesServiceImpl::are_valid_user_flags(USER_FLAG_DRIVER | 4));
    assert!(!UserPreferencesServiceImpl::are_valid_user_flags(-1));
    assert!(!UserPreferencesServiceImpl::are_valid_user_flags(i32::MIN | USER_FLAG_DRIVER));
    let mut service = UserPreferencesServiceImpl::new();
    let e = service.create_user(Some(User { id: 1, flags: -1 })).unwrap_err();
    assert!(matches!(e.reason, ErrorReason::InvalidUserFlags(-1)));
}

#[test]
fn create_user_without_user_is_invalid_request() {
    let mut service = UserPreferencesServiceImpl::new();
    let e = service.create_user(None).unwrap_err();
    assert_eq!(e.error_code, ResponseCode::InvalidRequest);
    assert!(matches!(e.reason, ErrorReason::MissingUser));
}

#[test]
fn create_user_twice_is_already_exists() {
    let mut service = UserPreferencesServiceImpl::new();
    assert!(service.create_user(driver(2)).is_ok());
    let e = service.create_user(driver(2)).unwrap_err();
    assert_eq!(e.error_code, ResponseCode::AlreadyExists);
    assert!(matches!(e.reason, ErrorReason::UserIdInUse(2)));
    assert_eq!(service.list_users().len(), 1);
}

#[test]
fn create_user_with_invalid_flags_is_refused() {
    let mut service = UserPreferencesServiceImpl::new();
    let e = service.create_user(Some(User { id: 3, flags: USER_FLAG_EPHEMERAL })).unwrap_err();
    assert_eq!(e.error_code, ResponseCode::InvalidRequest);
    assert!(matches!(e.reason, ErrorReason::InvalidUserFlags(f) if f == USER_FLAG_EPHEMERAL));
    assert!(service.list_users().is_empty());
}

#[test]
fn created_user_can_be_selected() {
    let mut service = UserPreferencesServiceImpl::new();
    service.create_user(driver(7)).unwrap();
    assert!(service.select_user(7).is_ok());
    assert_eq!(service.current_user_id(), Some(7));
    assert_eq!(service.list_users(), vec![User { id: 7, flags: USER_FLAG_DRIVER }]);
}

#[test]
fn selecting_unknown_user_is_not_found() {
    let mut service = UserPreferencesServiceImpl::new();
    let e = service.select_user(9).unwrap_err();
    assert_eq!(e.error_code, ResponseCode::NotFoundError);
    assert!(matches!(e.reason, ErrorReason::SelectedUserNotFound(9)));
}

#[test]
fn selecting_another_user_deletes_an_ephemeral_user() {
    let mut service = UserPreferencesServiceImpl::new();
    service.create_user(Some(User { id: 2, flags: USER_FLAG_DRIVER | USER_FLAG_EPHEMERAL })).unwrap();
    service.create_user(driver(3)).unwrap();
    service.select_user(2).unwrap();
    service.select_user(3).unwrap();
    assert_eq!(service.list_users(), vec![User { id: 3, flags: USER_FLAG_DRIVER }]);
    service.select_user(3).unwrap();
    assert_eq!(service.list_users().len(), 1);
}

#[test]
fn selecting_a_user_returns_its_per_user_settings() {
    let mut service = registered_service();
    service.create_user(driver(2)).unwrap();
    let apps = service.select_user(2).unwrap();
    assert_eq!(apps.len(), 1);
    assert_eq!(apps[0].group_id.service_fqin, "HvacService");
    assert_eq!(apps[0].group_id.name, "Climate");
    let keys: Vec<&str> = apps[0].settings.iter().map(|p| p.key.as_str()).collect();
    assert_eq!(keys, vec!["TEMPERATURE", "UNITS"]);
    assert_eq!(value_of(&apps[0].settings, "TEMPERATURE"), Some(21));
}

#[test]
fn deleting_users() {
    let mut service = UserPreferencesServiceImpl::new();
    let e = service.delete_user(4).unwrap_err();
    assert_eq!(e.error_code, ResponseCode::NotFoundError);
    assert!(matches!(e.reason, ErrorReason::DeletedUserNotFound(4)));

    service.create_user(driver(4)).unwrap();
    service.create_user(driver(5)).unwrap();
    service.select_user(4).unwrap();
    let e = service.delete_user(4).unwrap_err();
    assert_eq!(e.error_code, ResponseCode::InvalidRequest);
    assert!(matches!(e.reason, ErrorReason::UserInUse(4)));

    assert!(service.delete_user(5).is_ok());
    assert_eq!(service.list_users(), vec![User { id: 4, flags: USER_FLAG_DRIVER }]);
    let e = service.select_user(5).unwrap_err();
    assert!(matches!(e.reason, ErrorReason::SelectedUserNotFound(5)));
}

#[test]
fn factory_reset_removes_all_users() {
    let mut service = registered_service();
    service.create_user(driver(2)).unwrap();
    service.select_user(2).unwrap();
    service.factory_reset();
    assert!(service.list_users().is_empty());
    assert_eq!(service.current_user_id(), None);
    assert!(UserPreferencesServiceImpl::factory_reset_response(Ok(())).is_ok());
    let e = UserPreferencesServiceImpl::factory_reset_response(Err("down".to_string()))
        .unwrap_err();
    assert_eq!(e.error_code, ResponseCode::InternalError);
    assert!(matches!(e.reason, ErrorReason::ServiceFailure(ref m) if m == "down"));
}

#[test]
fn user_settings_of_a_new_user_are_the_defaults() {
    let mut service = registered_service();
    service.create_user(driver(2)).unwrap();
    let groups = service.get_user_settings(2).unwrap();
    assert_eq!(groups.len(), 1);
    assert_eq!(groups[0].version, "1.0");
    assert_eq!(value_of(&groups[0].settings, "TEMPERATURE"), Some(21));
    assert_eq!(value_of(&groups[0].settings, "FAN"), Some(3));
    assert_eq!(value_of(&groups[0].settings, "UNITS"), Some(1));

    let e = service.get_user_settings(8).unwrap_err();
    assert_eq!(e.error_code, ResponseCode::InvalidRequest);
    assert!(matches!(e.reason, ErrorReason::SettingsOfUnknownUser(8)));
}

#[test]
fn reregistration_keeps_existing_values() {
    let mut service = registered_service();
    service
        .update_settings(
            "HvacService".to_string(),
            "Climate".to_string(),
            vec![SettingProto { key: "TEMPERATURE".to_string(), value: Some(SettingValue::Int32(25)) }],
        )
        .unwrap();
    service.register_settings(
        "HvacService".to_string(),
        "Climate".to_string(),
        "2.0".to_string(),
        vec![
            int_definition("TEMPERATURE", SettingKind::PerUser, 18),
            int_definition("SEAT_HEAT", SettingKind::PerUser, 1),
        ],
    );
    let sub = service
        .subscribe_to_settings_change_and_get_settings(hvac_id(), "Display".to_string())
        .unwrap();
    assert_eq!(sub.version, "1.0");
    let protos: Vec<SettingProto> =
        sub.current_settings.into_iter().map(|sc| sc.setting.unwrap()).collect();
    assert_eq!(value_of(&protos, "TEMPERATURE"), Some(25));
    assert_eq!(value_of(&protos, "SEAT_HEAT"), Some(1));
}

#[test]
fn requested_change_is_validated() {
    let service = registered_service();
    let ok = service
        .request_settings_change(
            hvac_id(),
            vec![SettingProto { key: "TEMPERATURE".to_string(), value: Some(SettingValue::Int32(30)) }],
        )
        .unwrap();
    assert_eq!(ok.group_id.service_fqin, "HvacService");
    assert_eq!(value_of(&ok.settings, "TEMPERATURE"), Some(30));

    let e = service
        .request_settings_change(
            hvac_id(),
            vec![SettingProto { key: "TEMPERATURE".to_string(), value: Some(SettingValue::Int32(300)) }],
        )
        .unwrap_err();
    assert_eq!(e.error_code, ResponseCode::InvalidRequest);
    assert!(matches!(
        e.reason,
        ErrorReason::InvalidChange(ChangeRejection::InvalidValue { ref key, .. }) if key == "TEMPERATURE"
    ));

    let e = service
        .request_settings_change(
            hvac_id(),
            vec![SettingProto { key: "WIPERS".to_string(), value: Some(SettingValue::Int32(1)) }],
        )
        .unwrap_err();
    assert!(matches!(
        e.reason,
        ErrorReason::InvalidChange(ChangeRejection::UnknownSetting { ref key, .. }) if key == "WIPERS"
    ));

    let e = service
        .request_settings_change(
            hvac_id(),
            vec![SettingProto { key: "TEMPERATURE".to_string(), value: None }],
        )
        .unwrap_err();
    assert!(matches!(
        e.reason,
        ErrorReason::InvalidChange(ChangeRejection::MissingValue { ref key }) if key == "TEMPERATURE"
    ));

    let e = service
        .request_settings_change(
            SettingsGroupId::new("Other".to_string(), "Group".to_string()),
            vec![],
        )
        .unwrap_err();
    assert_eq!(e.error_code, ResponseCode::InvalidRequest);
    assert!(matches!(e.reason, ErrorReason::GroupNotFound(ref g) if g.name == "Group"));

    assert!(UserPreferencesServiceImpl::settings_change_response(Ok(())).is_ok());
    let e = UserPreferencesServiceImpl::settings_change_response(Err("x".to_string())).unwrap_err();
    assert!(matches!(e.reason, ErrorReason::ServiceFailure(ref m) if m == "x"));
}

#[test]
fn subscribe_then_unsubscribe_removes_the_caller() {
    let mut service = registered_service();
    let e = service
        .subscribe_to_settings_change_and_get_settings(
            SettingsGroupId::new("Nobody".to_string(), "None".to_string()),
            "Display".to_string(),
        )
        .unwrap_err();
    assert!(matches!(e.reason, ErrorReason::SubscribedGroupMissing(_)));

    service
        .subscribe_to_settings_change_and_get_settings(hvac_id(), "Display".to_string())
        .unwrap();
    service.subscribe_to_settings_change_and_get_settings(hvac_id(), "Seat".to_string()).unwrap();
    assert_eq!(service.subscriber_list(&hvac_id()), vec!["Display".to_string(), "Seat".to_string()]);
    service.unsubscribe_from_settings_change(hvac_id(), "Display".to_string()).unwrap();
    assert_eq!(service.subscriber_list(&hvac_id()), vec!["Seat".to_string()]);

    // A subscription to a group that is not registered is kept all the same.
    assert_eq!(
        service.subscriber_list(&SettingsGroupId::new("Nobody".to_string(), "None".to_string())),
        vec!["Display".to_string()]
    );
    let e = service
        .unsubscribe_from_settings_change(
            SettingsGroupId::new("Never".to_string(), "Seen".to_string()),
            "Seat".to_string(),
        )
        .unwrap_err();
    assert_eq!(e.error_code, ResponseCode::InvalidRequest);
    assert!(matches!(e.reason, ErrorReason::UnsubscribedGroupMissing(_)));
}

#[test]
fn update_settings_notifies_subscribers_and_keeps_invalid_values_out() {
    let mut service = registered_service();
    service
        .subscribe_to_settings_change_and_get_settings(hvac_id(), "Display".to_string())
        .unwrap();
    let n = service
        .update_settings(
            "HvacService".to_string(),
            "Climate".to_string(),
            vec![
                SettingProto { key: "TEMPERATURE".to_string(), value: Some(SettingValue::Int32(22)) },
                SettingProto { key: "FAN".to_string(), value: Some(SettingValue::Int32(500)) },
            ],
        )
        .unwrap();
    assert_eq!(n.version, "1.0");
    assert_eq!(n.subscribers, vec!["Display".to_string()]);
    let sub = service
        .subscribe_to_settings_change_and_get_settings(hvac_id(), "Other".to_string())
        .unwrap();
    let protos: Vec<SettingProto> =
        sub.current_settings.into_iter().map(|sc| sc.setting.unwrap()).collect();
    assert_eq!(value_of(&protos, "TEMPERATURE"), Some(22));
    assert_eq!(value_of(&protos, "FAN"), Some(3));

    let e = service
        .update_settings(
            "HvacService".to_string(),
            "Climate".to_string(),
            vec![SettingProto { key: "FAN".to_string(), value: None }],
        )
        .unwrap_err();
    assert_eq!(e.error_code, ResponseCode::InvalidRequest);
    assert!(matches!(e.reason, ErrorReason::MissingValues(ref v) if v.len() == 1));

    let e = service
        .update_settings("Nobody".to_string(), "None".to_string(), vec![])
        .unwrap_err();
    assert_eq!(e.error_code, ResponseCode::NotFoundError);
}

#[test]
fn error_messages() {
    let mut service = registered_service();
    let e = service.create_user(None).unwrap_err();
    assert_eq!(
        e.message().as_deref(),
        Some("Invalid create user request, user field cannot be empty")
    );
    service.create_user(driver(2)).unwrap();
    let e = service.create_user(driver(2)).unwrap_err();
    assert_eq!(e.message().as_deref(), Some("User ID '2' is already in use"));
    let e = service.create_user(Some(User { id: 5, flags: 6 })).unwrap_err();
    assert_eq!(e.message().as_deref(), Some("User flags 6 is not a valid value"));
    let e = service.select_user(-3).unwrap_err();
    assert_eq!(e.message().as_deref(), Some("User ID '-3' does not exist"));
    let e = service.delete_user(9).unwrap_err();
    assert_eq!(e.message().as_deref(), Some("User 9 does not exist"));
    service.select_user(2).unwrap();
    let e = service.delete_user(2).unwrap_err();
    assert_eq!(e.message().as_deref(), Some("Cannot delete User 2 since it is in use"));
    let e = service.get_user_settings(11).unwrap_err();
    assert_eq!(e.message().as_deref(), Some("user 11 does not exist"));

    let other = SettingsGroupId::new("A".to_string(), "B".to_string());
    let e = service.request_settings_change(other.clone(), vec![]).unwrap_err();
    assert_eq!(e.message().as_deref(), Some("Settings group A/B not found"));
    let e = service.subscribe_to_settings_change_and_get_settings(other.clone(), "x".to_string()).unwrap_err();
    assert_eq!(e.message().as_deref(), Some("Settings A/B does not exist"));
    let e = service
        .unsubscribe_from_settings_change(SettingsGroupId::new("C".to_string(), "D".to_string()), "x".to_string())
        .unwrap_err();
    assert_eq!(e.message().as_deref(), Some("Settings group C/D does not exist"));
    let e = service
        .request_settings_change(
            hvac_id(),
            vec![SettingProto { key: "WIPERS".to_string(), value: Some(SettingValue::Int32(1)) }],
        )
        .unwrap_err();
    assert_eq!(
        e.message().as_deref(),
        Some("Setting WIPERS cannot be found within setting group HvacService/Climate")
    );
    let e = service
        .request_settings_change(hvac_id(), vec![SettingProto { key: "FAN".to_string(), value: None }])
        .unwrap_err();
    assert_eq!(e.message().as_deref(), Some("Setting FAN has None value"));
    let e = service
        .request_settings_change(
            hvac_id(),
            vec![SettingProto { key: "FAN".to_string(), value: Some(SettingValue::Int32(-1)) }],
        )
        .unwrap_err();
    assert_eq!(e.message(), None);
}

#[test]
fn outcomes_of_calls_to_other_services() {
    assert_eq!(apply_settings_outcome(Ok(None)), Ok(()));
    assert_eq!(
        apply_settings_outcome(Ok(Some("bad".to_string()))),
        Err("Failed to request settings changes: bad".to_string())
    );
    assert_eq!(
        apply_settings_outcome(Err("down".to_string())),
        Err("Failed to perform GRPC request to request_settings_change: down".to_string())
    );
    assert_eq!(reset_services_outcome(Ok(None)), Ok(()));
    assert_eq!(
        reset_services_outcome(Ok(Some("no".to_string()))),
        Err("Failed to factory reset HvacService service: no".to_string())
    );
    assert_eq!(
        har_sdv::user_preferences::service::factory_reset_target(),
        "HvacService"
    );
}

#[test]
fn registering_twice_is_registering_once() {
    let mut once = registered_service();
    let mut twice = registered_service();
    twice.register_settings(
        "HvacService".to_string(),
        "Climate".to_string(),
        "1.0".to_string(),
        vec![
            int_definition("TEMPERATURE", SettingKind::PerUser, 21),
            int_definition("FAN", SettingKind::Global, 3),
            enum_definition("UNITS", 1),
        ],
    );
    let a = once.subscribe_to_settings_change_and_get_settings(hvac_id(), "x".to_string()).unwrap();
    let b = twice.subscribe_to_settings_change_and_get_settings(hvac_id(), "x".to_string()).unwrap();
    assert_eq!(format!("{:?}", a), format!("{:?}", b));
}
