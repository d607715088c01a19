use har_sdv::bundle_state::{Cancelable, LauncherToken, TaskSlot};
use har_sdv::driverui::{
    design_token_update_log_entry, design_token_update_to_har, document_switched_log_entry,
    document_switched_to_har, document_updated_log_entry, document_updated_to_har,
    empty_response_from_har, heartbeat_log_entry, heartbeat_to_har, locale_update_log_entry,
    locale_update_to_har, status_response_from_har, CameraServiceGrpcProxy,
    DesignTokenUpdateRequest, DocumentSwitchedRequest, DocumentUpdatedRequest, DriverUiGrpcProxy,
    HeartbeatRequest, LocaleUpdateRequest, SdvStatusCode, StatusResponse,
};
use har_sdv::har_preferences::{
    admin_user, change_settings_request, default_settings, register_settings_request,
    setting_definitions, RequestSettingsChangeRequest, UserControllablePreferencesServiceImpl,
    DISTANCE_UNIT_KILOMETERS, DISTANCE_UNIT_MILES, TEMPERATURE_UNIT_CELSIUS,
    TEMPERATURE_UNIT_FAHRENHEIT,
};
use har_sdv::mapper::{SdvToHarMapper, VehicleDataPoint};
use har_sdv::preferences_forwarding::{
    har_subscription, is_har_settings_change, settings_to_vehicle_data, to_vehicle_data,
};
use har_sdv::service_discovery::{
    camera_proxy_registration, camera_server_address, driverui_proxy_registration,
    driverui_server_address, first_found_service, get_har_sdv_camera_service_fqin, get_har_sdv_driverui_service_fqin,
    host_port, qnx_vehicle_data_address, service_query, ServiceFqin,
};
use har_sdv::support::{
    default_sdv_test_timeout, init_har_tracing_result, option_to_string, HarTracingError,
    StubHarryServerBuilder,
};
use har_sdv::user_preferences::setting::{SettingProto, SettingValue};
use har_sdv::user_preferences::settings_group_id::SettingsGroupId;
use har_sdv::user_preferences::vehicle_configuration::{USER_FLAG_DRIVER, USER_FLAG_EPHEMERAL};
use std::time::Duration;

fn enum_value(m: &har_sdv::har_preferences::SettingsMap, key: &str) -> Option<i32> {
    for i in 0..m.len() {
        if m.key_at(i) == key {
            if let SettingValue::Enum(v) = m.value_at(i) {
                return Some(*v);
            }
        }
    }
    None
}

#[test]
fn har_settings_definitions_and_defaults() {
    let defs = setting_definitions();
    assert_eq!(defs.len(), 2);
    assert_eq!(defs.key_at(0), "DISTANCE_UNITS");
    assert_eq!(defs.key_at(1), "TEMPERATURE_UNITS");
    let defaults = default_settings();
    assert_eq!(enum_value(&defaults, "DISTANCE_UNITS"), Some(DISTANCE_UNIT_MILES));
    assert_eq!(enum_value(&defaults, "TEMPERATURE_UNITS"), Some(TEMPERATURE_UNIT_FAHRENHEIT));

    let reg = register_settings_request();
    assert_eq!(reg.group_name, "HAR");
    assert_eq!(reg.version, "1.0");
    assert_eq!(reg.caller_fqin, "HarPreferencesService");
    assert_eq!(reg.settings_definitions.len(), 2);
}

#[test]
fn har_preferences_store_changes_and_reset() {
    let mut service = UserControllablePreferencesServiceImpl::new(default_settings());
    let update = service
        .request_settings_change(RequestSettingsChangeRequest {
            group_name: "HAR".to_string(),
            settings: vec![SettingProto {
                key: "DISTANCE_UNITS".to_string(),
                value: Some(SettingValue::Enum(DISTANCE_UNIT_KILOMETERS)),
            }],
        })
        .unwrap();
    assert_eq!(update.group_name, "HAR");
    assert_eq!(update.caller_fqin, "HarPreferencesService");
    assert_eq!(update.settings.len(), 1);

    let none = service.request_settings_change(RequestSettingsChangeRequest {
        group_name: "HAR".to_string(),
        settings: vec![
            SettingProto {
                key: "TEMPERATURE_UNITS".to_string(),
                value: Some(SettingValue::Enum(TEMPERATURE_UNIT_CELSIUS)),
            },
            SettingProto { key: "DISTANCE_UNITS".to_string(), value: None },
        ],
    });
    assert!(none.is_none());

    assert_eq!(
        enum_value(service.current_settings(), "DISTANCE_UNITS"),
        Some(DISTANCE_UNIT_KILOMETERS)
    );
    assert_eq!(
        enum_value(service.current_settings(), "TEMPERATURE_UNITS"),
        Some(TEMPERATURE_UNIT_CELSIUS)
    );
    let reset = service.factory_reset();
    assert_eq!(enum_value(service.current_settings(), "DISTANCE_UNITS"), Some(DISTANCE_UNIT_MILES));
    assert_eq!(
        enum_value(service.current_settings(), "TEMPERATURE_UNITS"),
        Some(TEMPERATURE_UNIT_FAHRENHEIT)
    );
    assert_eq!(reset.group_name, "HAR");
    let keys: Vec<&str> = reset.settings.iter().map(|s| s.key.as_str()).collect();
    assert_eq!(keys, vec!["DISTANCE_UNITS", "TEMPERATURE_UNITS"]);
    assert!(matches!(reset.settings[0].value, Some(SettingValue::Enum(v)) if v == DISTANCE_UNIT_MILES));
}

#[test]
fn admin_requests() {
    let u = admin_user();
    assert_eq!(u.id, 2);
    assert_eq!(u.flags, USER_FLAG_DRIVER | USER_FLAG_EPHEMERAL);
    let r = change_settings_request(
        "HAR".to_string(),
        "DISTANCE_UNITS".to_string(),
        SettingValue::Enum(DISTANCE_UNIT_KILOMETERS),
    );
    assert_eq!(r.settings_group_id.service_fqin, "HarPreferencesService");
    assert_eq!(r.settings_group_id.name, "HAR");
    assert_eq!(r.settings.len(), 1);
    assert_eq!(r.settings[0].key, "DISTANCE_UNITS");
}

#[test]
fn har_settings_are_forwarded_as_vehicle_data() {
    let sub = har_subscription();
    assert_eq!(sub.settings_group_id.service_fqin, "HarPreferencesService");
    assert_eq!(sub.settings_group_id.name, "HAR");
    assert_eq!(sub.caller_fqin, "HarPreferencesClient");
    assert!(is_har_settings_change(&Some(SettingsGroupId::new("X".to_string(), "HAR".to_string()))));
    assert!(!is_har_settings_change(&Some(SettingsGroupId::new("X".to_string(), "har".to_string()))));
    assert!(!is_har_settings_change(&None));

    let mapper = SdvToHarMapper::new(har_sdv::integrations::create_topic_map());
    for i in 0..setting_definitions().len() {
        let key = setting_definitions().key_at(i).clone();
        let d = to_vehicle_data(&mapper, key.clone(), &SettingValue::Enum(0)).unwrap();
        assert_ne!(d.name, key);
    }
    let d = to_vehicle_data(&mapper, "DISTANCE_UNITS".to_string(), &SettingValue::Enum(1)).unwrap();
    assert_eq!(d.name, "sdv.preferences.distance_units");
    assert!(matches!(d.data, Some(VehicleDataPoint::I32(1))));
    let d = to_vehicle_data(&mapper, "X".to_string(), &SettingValue::Float(1.5f32.to_bits())).unwrap();
    assert!(matches!(d.data, Some(VehicleDataPoint::F32(b)) if b == 1.5f32.to_bits()));
    assert!(to_vehicle_data(&mapper, "X".to_string(), &SettingValue::Int64(1)).is_none());
    assert!(to_vehicle_data(&mapper, "X".to_string(), &SettingValue::Blob(vec![1])).is_none());

    let out = settings_to_vehicle_data(
        &mapper,
        &vec![
            SettingProto { key: "TEMPERATURE_UNITS".to_string(), value: Some(SettingValue::Enum(0)) },
            SettingProto { key: "A".to_string(), value: None },
            SettingProto { key: "B".to_string(), value: Some(SettingValue::Int64(3)) },
            SettingProto { key: "C".to_string(), value: Some(SettingValue::Bool(true)) },
        ],
    );
    assert_eq!(out.len(), 2);
    assert_eq!(out[0].name, "sdv.preferences.temperature_units");
    assert_eq!(out[1].name, "C");
    assert!(matches!(out[1].data, Some(VehicleDataPoint::Bool(true))));
}

#[test]
fn heartbeats_pass_with_known_sources_only() {
    let ok = heartbeat_to_har(&HeartbeatRequest { uptime: 42, source: 2 }).unwrap();
    assert_eq!(ok, HeartbeatRequest { uptime: 42, source: 2 });
    let e = heartbeat_to_har(&HeartbeatRequest { uptime: 42, source: 9 }).unwrap_err();
    assert_eq!(e.code, SdvStatusCode::InvalidArgument);
    assert!(e.message.is_none());
}

#[test]
fn har_answers_are_passed_back() {
    let r = status_response_from_har(Ok(StatusResponse { status: 1 })).unwrap();
    assert_eq!(r, StatusResponse { status: 1 });
    let e = status_response_from_har(Ok(StatusResponse { status: 5 })).unwrap_err();
    assert_eq!(e.code, SdvStatusCode::InvalidArgument);
    let e = status_response_from_har(Err("unavailable".to_string())).unwrap_err();
    assert_eq!(e.code, SdvStatusCode::Internal);
    assert_eq!(e.message.as_deref(), Some("unavailable"));
    assert!(empty_response_from_har(Ok(())).is_ok());
    let e = empty_response_from_har(Err("gone".to_string())).unwrap_err();
    assert_eq!(e.code, SdvStatusCode::Internal);
    assert_eq!(e.message.as_deref(), Some("gone"));
}

#[test]
fn requests_are_copied_to_har() {
    let r = document_switched_to_har(&DocumentSwitchedRequest { document_id: "d1".to_string() });
    assert_eq!(r.document_id, "d1");
    let r = document_updated_to_har(&DocumentUpdatedRequest {
        document_id: "d2".to_string(),
        serialized_document: vec![1, 2, 3],
    });
    assert_eq!(r.serialized_document, vec![1, 2, 3]);
    let r = design_token_update_to_har(&DesignTokenUpdateRequest {
        theme: "dark".to_string(),
        variable_mode: "night".to_string(),
    });
    assert_eq!((r.theme.as_str(), r.variable_mode.as_str()), ("dark", "night"));
    let r = locale_update_to_har(&LocaleUpdateRequest { language_tag: "de-DE".to_string() });
    assert_eq!(r.language_tag, "de-DE");
}

#[test]
fn test_log_entries() {
    let e = heartbeat_log_entry(&HeartbeatRequest { uptime: -5, source: 1 });
    assert_eq!(e.state_name, "DriverUI:heartbeat::source");
    assert_eq!(e.value, "ANDROID");
    assert_eq!(e.message, "processed, uptime=-5");
    let e = heartbeat_log_entry(&HeartbeatRequest { uptime: 0, source: 99 });
    assert_eq!(e.value, "UNKNOWN");
    let e = document_switched_log_entry(&DocumentSwitchedRequest { document_id: "a".to_string() });
    assert_eq!((e.state_name.as_str(), e.value.as_str(), e.message.as_str()), ("DriverUI:documentswitched", "a", "processed"));
    let e = document_updated_log_entry(&DocumentUpdatedRequest {
        document_id: "b".to_string(),
        serialized_document: vec![],
    });
    assert_eq!(e.state_name, "DriverUI:documentupdated");
    let e = design_token_update_log_entry(&DesignTokenUpdateRequest {
        theme: "t".to_string(),
        variable_mode: "m".to_string(),
    });
    assert_eq!(e.value, "theme=t, variable_mode=m");
    let e = locale_update_log_entry(&LocaleUpdateRequest { language_tag: "fr".to_string() });
    assert_eq!((e.state_name.as_str(), e.value.as_str()), ("DriverUI:localeupdate", "fr"));
}

#[test]
fn service_names_and_addresses() {
    let f = get_har_sdv_driverui_service_fqin();
    assert_eq!(
        (f.vm_name.as_str(), f.package_name.as_str(), f.service_name.as_str(), f.instance_name.as_str()),
        ("local-vm", "com.sdv.google.display_safety", "DriverUIService", "default")
    );
    let f = get_har_sdv_camera_service_fqin();
    assert_eq!(f.service_name, "CameraService");

    let q = service_query(&ServiceFqin {
        vm_name: String::new(),
        package_name: "p".to_string(),
        service_name: "s".to_string(),
        instance_name: "i".to_string(),
    });
    assert!(q.vm_name.is_none());
    assert_eq!(q.instance_name.as_deref(), Some("i"));
    assert_eq!((q.package_name.as_str(), q.service_name.as_str()), ("p", "s"));

    let r = driverui_proxy_registration();
    assert_eq!(r.public_key, b"HARSDVGATEWAY-7890123456_______\0".to_vec());
    assert_eq!(r.listening_port, 7000);
    assert_eq!(r.fqin.package_name, "android.sdv.displaysafety");
    assert_eq!(r.fqin.service_name, "DriverUIService");
    let r = camera_proxy_registration();
    assert_eq!(r.public_key, b"HARSDVGATEWAY-CAMERA-7890123456\0".to_vec());
    assert_eq!(r.listening_port, 8000);

    assert_eq!(first_found_service(vec!["a", "b"]), Some("a"));
    assert_eq!(first_found_service(Vec::<&str>::new()), None);
    assert_eq!(driverui_server_address(), "0.0.0.0:7000");
    assert_eq!(camera_server_address(), "0.0.0.0:8000");
    assert_eq!(host_port("h", -1), "h:-1");
    assert_eq!(qnx_vehicle_data_address(Some("10.0.0.2".to_string())).as_deref(), Some("10.0.0.2:50051"));
    assert_eq!(qnx_vehicle_data_address(None), None);

    assert_eq!(DriverUiGrpcProxy::new("a:1".to_string()).server_address, "a:1");
    assert_eq!(CameraServiceGrpcProxy::new("b:2".to_string()).server_address, "b:2");
}

#[test]
fn support_pieces() {
    assert_eq!(default_sdv_test_timeout(), Duration::from_secs(30));
    assert_eq!(StubHarryServerBuilder::new("127.0.0.1:50051".to_string()).server_address, "127.0.0.1:50051");
    assert_eq!(option_to_string::<i32>(&None), "None");
    assert_eq!(option_to_string(&Some(5)), "5");
    assert_eq!(option_to_string(&Some("x")), "\"x\"");
    let e = HarTracingError::InitError("bad".to_string());
    assert_eq!(e.message(), "Tracing initialization failed: bad");
    assert!(init_har_tracing_result(Ok(())).is_ok());
    match init_har_tracing_result(Err("no tracer".to_string())) {
        Err(HarTracingError::InitError(m)) => assert_eq!(m, "Failed to init tracing: no tracer"),
        Ok(()) => panic!("expected an error"),
    }
}

#[test]
fn bundle_start_and_stop() {
    let mut slot = TaskSlot::new();
    assert!(slot.try_start(1));
    assert!(!slot.try_start(2));
    assert_eq!(slot.running_task, Some(1));
    assert_eq!(slot.stop(), Some(1));
    assert_eq!(slot.stop(), None);

    let mut c = Cancelable::new("token");
    assert_eq!(c.cancel(), Some("token"));
    assert_eq!(c.cancel(), None);

    let mut l = LauncherToken::new();
    assert_eq!(l.stop(), None::<u8>);
    assert!(!l.start(1));
    assert!(l.start(2));
    assert_eq!(l.stop(), Some(2));
    assert_eq!(l.stop(), None);
}
