use har_sdv::har_message::{
    gear_to_string, har_message_to_vehicle_data, monitored_units, observed_message,
    telltale_status_to_string, tire_pressure_to_string,
    vehicle_speed_to_string, HarMessage, UnitMessage,
};
use har_sdv::mapper::{HashMapTopicMapper, SdvToHarMapper, TopicMapper, VehicleDataPoint};
use har_sdv::vehicle_data::model::{
    convert_result_to_status, current_gear_request_to_message, telltale_status_request_to_message,
    tire_pressure_request_to_message, vehicle_speed_request_to_message, CurrentGear, Error,
    GearValue, PublishCurrentGearRequest, PublishTelltaleStatusRequest, PublishTirePressureRequest,
    PublishVehicleDataResponseStatus, PublishVehicleSpeedRequest, TellTaleStatus, TirePressure,
    VehicleSpeed,
};
use har_sdv::vehicle_data::playback::{play_steps, PublishRequest, Step, StepsBuilder, Task};
use har_sdv::vehicle_data::publishers::{
    publisher_variants, HarryVehicleDataPublishers, PublisherVariant, PUBLISHER_COUNT,
};
use har_sdv::vehicle_data::topics::{
    gear_from_number, location_from_number, speed_topic_from_number, telltale_from_number,
    telltale_number, telltale_values, Gear, Location, Telltale, VehicleSpeedTopic,
};
use std::time::Duration;

fn protocol_text<T>(r: Result<T, Error>) -> String {
    match r {
        Err(Error::Protocol(s)) => s,
        _ => panic!("expected a protocol error"),
    }
}

#[test]
fn wire_numbers_round_trip() {
    for t in telltale_values() {
        assert_eq!(telltale_from_number(telltale_number(t)), Some(t));
    }
    assert_eq!(telltale_values().len(), 21);
    assert_eq!(telltale_from_number(0), Some(Telltale::OIL_PRESSURE));
    assert_eq!(telltale_from_number(20), Some(Telltale::EMERGENCY_LIGHT));
    assert_eq!(telltale_from_number(21), None);
    assert_eq!(telltale_from_number(-1), None);
    assert_eq!(speed_topic_from_number(2), Some(VehicleSpeedTopic::SPEEDLIMIT));
    assert_eq!(speed_topic_from_number(3), None);
    assert_eq!(location_from_number(4), Some(Location::FIFTH_WHEEL));
    assert_eq!(location_from_number(5), None);
    assert_eq!(gear_from_number(3), Some(Gear::D));
    assert_eq!(gear_from_number(4), None);
}

#[test]
fn gear_request_becomes_gear_message() {
    let r = current_gear_request_to_message(PublishCurrentGearRequest {
        topic: 0,
        gear: Some(GearValue { gear: 1 }),
    });
    assert!(matches!(r, Ok(CurrentGear { gear: Gear::R })));
    let r = current_gear_request_to_message(PublishCurrentGearRequest { topic: 0, gear: None });
    assert!(matches!(r, Ok(CurrentGear { gear: Gear::P })));
    let r = current_gear_request_to_message(PublishCurrentGearRequest {
        topic: 0,
        gear: Some(GearValue { gear: 7 }),
    });
    assert_eq!(protocol_text(r), "Cannot map to gear 7");
}

#[test]
fn speed_telltale_and_tire_requests_become_messages() {
    let r = vehicle_speed_request_to_message(PublishVehicleSpeedRequest {
        topic: 1,
        speed: Some(VehicleSpeed { speed: 88 }),
    });
    assert!(matches!(r, Ok((VehicleSpeedTopic::MAX_SPEED, VehicleSpeed { speed: 88 }))));
    let r = vehicle_speed_request_to_message(PublishVehicleSpeedRequest { topic: -4, speed: None });
    assert_eq!(protocol_text(r), "Cannot map to vehicle speed topic -4");

    let r = telltale_status_request_to_message(PublishTelltaleStatusRequest {
        topic: 8,
        status: Some(TellTaleStatus { alert: true }),
    });
    assert!(matches!(r, Ok((Telltale::ABS, TellTaleStatus { alert: true }))));
    let r = telltale_status_request_to_message(PublishTelltaleStatusRequest { topic: 30, status: None });
    assert_eq!(protocol_text(r), "Cannot map to telltale topic 30");

    let r = tire_pressure_request_to_message(PublishTirePressureRequest {
        topic: 2,
        pressure: Some(TirePressure { pressure: 230 }),
    });
    assert!(matches!(r, Ok((Location::REAR_LEFT, TirePressure { pressure: 230 }))));
    let r = tire_pressure_request_to_message(PublishTirePressureRequest { topic: 9, pressure: None });
    assert_eq!(protocol_text(r), "Cannot map to tire pressure topic 9");
}

#[test]
fn publish_outcome_becomes_status() {
    assert_eq!(convert_result_to_status(&Ok(())), PublishVehicleDataResponseStatus::STATUS_OK);
    assert_eq!(
        convert_result_to_status(&Err("boom".to_string())),
        PublishVehicleDataResponseStatus::STATUS_NOT_DELIVERED
    );
}

#[test]
fn each_unit_has_its_own_publisher() {
    let variants = publisher_variants();
    assert_eq!(variants.len(), PUBLISHER_COUNT);
    assert_eq!(variants[0], PublisherVariant::Telltale(Telltale::OIL_PRESSURE));
    assert_eq!(variants[21], PublisherVariant::Speed(VehicleSpeedTopic::VEHICLE_SPEED));
    assert_eq!(variants[28], PublisherVariant::Tire(Location::FIFTH_WHEEL));
    assert_eq!(variants[29], PublisherVariant::Gear);

    assert!(HarryVehicleDataPublishers::new(vec![0usize; 29]).is_none());
    let publishers = HarryVehicleDataPublishers::new((0..PUBLISHER_COUNT).collect()).unwrap();
    assert_eq!(*publishers.tell_tale_status_publisher(Telltale::ENGINE_TEMP), 1);
    assert_eq!(*publishers.tell_tale_status_publisher(Telltale::EMERGENCY_LIGHT), 20);
    assert_eq!(*publishers.vehicle_speed_publisher(VehicleSpeedTopic::SPEEDLIMIT), 23);
    assert_eq!(*publishers.tire_pressure_publisher(Location::FRONT_LEFT), 24);
    assert_eq!(*publishers.current_gear_publisher(), 29);
    for (i, v) in variants.iter().enumerate() {
        assert_eq!(*publishers.publisher(*v), i);
    }
}

#[test]
fn steps_builder_keeps_order() {
    let tasks = StepsBuilder::new()
        .and_then(Task::set_gear(Gear::D))
        .and_then(Task::delay(Duration::from_millis(5)))
        .build();
    assert_eq!(tasks.len(), 2);
    assert!(matches!(tasks[0], Task::SetGear(g) if g.gear == Gear::D));
    assert!(matches!(tasks[1], Task::Delay(d) if d == Duration::from_millis(5)));
}

#[test]
fn playing_a_speed_change_publishes_each_speed() {
    let d = Duration::from_secs(3);
    let steps = play_steps(&vec![Task::change_speed(VehicleSpeedTopic::VEHICLE_SPEED, 10, 7, d)]);
    assert_eq!(steps.len(), 8);
    let speeds: Vec<u32> = steps
        .iter()
        .filter_map(|s| match s {
            Step::Publish(PublishRequest::VehicleSpeed(r)) => Some(r.speed.unwrap().speed),
            _ => None,
        })
        .collect();
    assert_eq!(speeds, vec![10, 9, 8, 7]);
    assert!(matches!(steps[1], Step::WaitFraction(w, 3) if w == d));
    assert!(matches!(steps[7], Step::WaitFraction(_, 3)));

    let up = play_steps(&vec![Task::change_speed(VehicleSpeedTopic::MAX_SPEED, -1, 1, d)]);
    let speeds: Vec<u32> = up
        .iter()
        .filter_map(|s| match s {
            Step::Publish(PublishRequest::VehicleSpeed(r)) => {
                assert_eq!(r.topic, 1);
                Some(r.speed.unwrap().speed)
            },
            _ => None,
        })
        .collect();
    assert_eq!(speeds, vec![u32::MAX, 0, 1]);
}

#[test]
fn playing_other_tasks() {
    let tasks = vec![
        Task::set_telltale_alert(Telltale::AIRBAG, true),
        Task::set_all_telltales_alert(false),
        Task::set_tire_pressure(Location::REAR_RIGHT, 250),
        Task::set_gear(Gear::N),
        Task::delay(Duration::from_secs(1)),
    ];
    let steps = play_steps(&tasks);
    assert_eq!(steps.len(), 1 + 21 + 1 + 1 + 1);
    assert!(matches!(
        steps[0],
        Step::Publish(PublishRequest::TelltaleStatus(PublishTelltaleStatusRequest {
            topic: 7,
            status: Some(TellTaleStatus { alert: true })
        }))
    ));
    for i in 0..21 {
        match steps[1 + i] {
            Step::Publish(PublishRequest::TelltaleStatus(r)) => {
                assert_eq!(r.topic, i as i32);
                assert_eq!(r.status, Some(TellTaleStatus { alert: false }));
            },
            _ => panic!("expected a telltale request"),
        }
    }
    assert!(matches!(
        steps[22],
        Step::Publish(PublishRequest::TirePressure(PublishTirePressureRequest {
            topic: 3,
            pressure: Some(TirePressure { pressure: 250 })
        }))
    ));
    match steps[23] {
        Step::Publish(PublishRequest::CurrentGear(r)) => {
            let m = current_gear_request_to_message(r);
            assert!(matches!(m, Ok(CurrentGear { gear: Gear::N })));
        },
        _ => panic!("expected a gear request"),
    }
    assert!(matches!(steps[24], Step::Wait(d) if d == Duration::from_secs(1)));
}

#[test]
fn observed_units_are_named() {
    assert_eq!(vehicle_speed_to_string(VehicleSpeedTopic::SPEEDLIMIT), "VehicleSpeed.SPEEDLIMIT");
    assert_eq!(telltale_status_to_string(Telltale::HIBEAM), "TellTaleStatus.HIBEAM");
    assert_eq!(tire_pressure_to_string(Location::FRONT_RIGHT), "TirePressure.FRONT_RIGHT");
    assert_eq!(gear_to_string(), "CurrentGear");
    let units = monitored_units();
    assert_eq!(units.len(), 30);
    assert_eq!(units[0], PublisherVariant::Gear);
    assert_eq!(units[1], PublisherVariant::Telltale(Telltale::OIL_PRESSURE));
    assert_eq!(units[22], PublisherVariant::Tire(Location::FRONT_LEFT));
    assert_eq!(units[27], PublisherVariant::Speed(VehicleSpeedTopic::VEHICLE_SPEED));
}

#[test]
fn every_observed_unit_reaches_har_under_a_har_name() {
    let mapper = SdvToHarMapper::new(har_sdv::integrations_v1::create_topic_map());
    for unit in monitored_units() {
        let u = match unit {
            PublisherVariant::Telltale(t) => UnitMessage::Telltale(t, TellTaleStatus { alert: false }),
            PublisherVariant::Speed(s) => UnitMessage::Speed(s, VehicleSpeed { speed: 1 }),
            PublisherVariant::Tire(l) => UnitMessage::Tire(l, TirePressure { pressure: 1 }),
            PublisherVariant::Gear => UnitMessage::Gear(CurrentGear { gear: Gear::D }),
        };
        let m = observed_message(u);
        let key = match &m {
            HarMessage::TellTaleStatus(k, _)
            | HarMessage::VehicleSpeed(k, _)
            | HarMessage::TirePressure(k, _)
            | HarMessage::CurrentGear(k, _) => k.clone(),
        };
        let d = har_message_to_vehicle_data(&mapper, m);
        assert_ne!(d.name, key);
        assert!(!d.name.contains('.'));
    }
}

#[test]
fn har_messages_become_fragments() {
    let mapper = SdvToHarMapper::new(har_sdv::integrations_v1::create_topic_map());
    let m = observed_message(UnitMessage::Speed(
        VehicleSpeedTopic::VEHICLE_SPEED,
        VehicleSpeed { speed: 4_000_000_000 },
    ));
    assert!(matches!(m, HarMessage::VehicleSpeed(ref k, v) if k == "VehicleSpeed.VEHICLE_SPEED" && v == 4_000_000_000u32 as i32));
    let d = har_message_to_vehicle_data(&mapper, m);
    assert_eq!(d.name, "vehicle_speed");
    assert!(matches!(d.data, Some(VehicleDataPoint::I32(v)) if v == 4_000_000_000u32 as i32));

    let d = har_message_to_vehicle_data(
        &mapper,
        observed_message(UnitMessage::Gear(CurrentGear { gear: Gear::R })),
    );
    assert_eq!(d.name, "vehicle_gear");
    assert!(matches!(d.data, Some(VehicleDataPoint::String(ref s)) if s == "R"));

    let d = har_message_to_vehicle_data(
        &mapper,
        observed_message(UnitMessage::Telltale(Telltale::ABS, TellTaleStatus { alert: true })),
    );
    assert_eq!(d.name, "abs");
    assert!(matches!(d.data, Some(VehicleDataPoint::Bool(true))));

    let d = har_message_to_vehicle_data(
        &mapper,
        HarMessage::TirePressure("TirePressure.FIFTH_WHEEL".to_string(), 77),
    );
    assert_eq!(d.name, "tire_pressure_fifth_wheel");
    assert!(matches!(d.data, Some(VehicleDataPoint::U32(77))));

    let d = har_message_to_vehicle_data(&mapper, HarMessage::TirePressure("Unknown".to_string(), 1));
    assert_eq!(d.name, "Unknown");
}

#[test]
fn process_topics_map_through_the_process_table() {
    let mapper = SdvToHarMapper::new(har_sdv::integrations::create_topic_map());
    let d = har_message_to_vehicle_data(
        &mapper,
        HarMessage::TirePressure("har.vehicledata.TirePressure.REAR_LEFT".to_string(), 3),
    );
    assert_eq!(d.name, "tire_pressure_rear_left");
    let d = har_message_to_vehicle_data(
        &mapper,
        HarMessage::CurrentGear("har.vehicledata.CurrentGear.GEAR".to_string(), Gear::P),
    );
    assert_eq!(d.name, "vehicle_gear");
    assert!(matches!(d.data, Some(VehicleDataPoint::String(ref s)) if s == "P"));
}

#[test]
fn added_topic_maps_and_others_keep_their_name() {
    let mut m = HashMapTopicMapper::new();
    m.add("a".to_string(), "b".to_string());
    m.add("c".to_string(), "d".to_string());
    m.add("a".to_string(), "e".to_string());
    assert_eq!(m.map_topic("a".to_string()), "e");
    assert_eq!(m.map_topic("c".to_string()), "d");
    assert_eq!(m.map_topic("z".to_string()), "z");
    assert_eq!(HashMapTopicMapper::default().map_topic("x".to_string()), "x");
    let pairs = HashMapTopicMapper::from_pairs(&vec![("x", "y"), ("x", "w")]);
    assert_eq!(pairs.map_topic("x".to_string()), "w");
}

#[test]
fn playing_scripts_in_a_row_is_playing_them_joined() {
    let a = vec![Task::set_gear(Gear::R), Task::change_speed(VehicleSpeedTopic::VEHICLE_SPEED, 0, 2, Duration::from_secs(1))];
    let b = vec![Task::set_all_telltales_alert(true), Task::delay(Duration::from_millis(3))];
    let joined: Vec<Task> = a.iter().chain(b.iter()).copied().collect();
    let mut separate = play_steps(&a);
    separate.extend(play_steps(&b));
    assert_eq!(format!("{:?}", play_steps(&joined)), format!("{:?}", separate));
}

#[test]
fn a_change_from_a_speed_to_itself_publishes_nothing() {
    let d = Duration::from_secs(2);
    let steps = play_steps(&vec![
        Task::set_gear(Gear::D),
        Task::change_speed(VehicleSpeedTopic::VEHICLE_SPEED, 5, 5, d),
    ]);
    assert_eq!(steps.len(), 2);
    assert!(matches!(steps[0], Step::Publish(PublishRequest::CurrentGear(_))));
    assert!(matches!(steps[1], Step::WaitFraction(w, 0) if w == d));
}

#[test]
fn har_message_timing_constants() {
    assert_eq!(har_sdv::har_message::OBSERVER_RETRY_DELAY_MS, 200);
    assert_eq!(har_sdv::har_message::MONITORING_START_TIMEOUT_SECS, 20);
    assert_eq!(har_sdv::har_message::HAR_MESSAGE_QUEUE_CAPACITY, 32);
}
