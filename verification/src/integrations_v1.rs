//! The topic names of the HAR-SDV service bundle.

use crate::mapper::{insert_pairs, pair_views, HashMapTopicMapper};
use vstd::prelude::*;

verus! {

/// The SDV topic names and the HAR topic names they map to.
pub open spec fn topic_table() -> Seq<(Seq<char>, Seq<char>)> {
    seq![
        ("TirePressure.REAR_LEFT"@, "tire_pressure_rear_left"@),
        ("TirePressure.FRONT_RIGHT"@, "tire_pressure_front_right"@),
        ("TirePressure.REAR_RIGHT"@, "tire_pressure_rear_right"@),
        ("TirePressure.FRONT_LEFT"@, "tire_pressure_front_left"@),
        ("TirePressure.FIFTH_WHEEL"@, "tire_pressure_fifth_wheel"@),
        ("VehicleSpeed.VEHICLE_SPEED"@, "vehicle_speed"@),
        ("VehicleSpeed.SPEEDLIMIT"@, "speed_limit"@),
        ("VehicleSpeed.MAX_SPEED"@, "max_speed"@),
        ("CurrentGear"@, "vehicle_gear"@),
        ("TellTaleStatus.PARK_LIGHTS"@, "park_lights"@),
        ("TellTaleStatus.ADAS"@, "adas"@),
        ("TellTaleStatus.FOG_LIGHTS"@, "fog_lights"@),
        ("TellTaleStatus.TRACTION"@, "traction"@),
        ("TellTaleStatus.SEATBELT_PASSENGER"@, "seatbelt_passenger"@),
        ("TellTaleStatus.CHECK_ENGINE"@, "check_engine"@),
        ("TellTaleStatus.OIL_PRESSURE"@, "oil_pressure"@),
        ("TellTaleStatus.BRAKE"@, "brake"@),
        ("TellTaleStatus.LOWBEAM"@, "lowbeam"@),
        ("TellTaleStatus.SEATBELT_DRIVER"@, "seatbelt_driver"@),
        ("TellTaleStatus.CHARGING_FAILURE"@, "charging_failure"@),
        ("TellTaleStatus.MAX_SPEED_DISPLAYED"@, "max_speed_displayed"@),
        ("TellTaleStatus.ENGINE_TEMP"@, "engine_temp"@),
        ("TellTaleStatus.AIRBAG"@, "airbag"@),
        ("TellTaleStatus.EMERGENCY_LIGHT"@, "emergency_light"@),
        ("TellTaleStatus.ABS"@, "abs"@),
        ("TellTaleStatus.HIBEAM"@, "hibeam"@),
        ("TellTaleStatus.TURN_SIGNAL_RIGHT"@, "turn_signal_right"@),
        ("TellTaleStatus.LOW_TIRE_PRESSURE"@, "low_tire_pressure"@),
        ("TellTaleStatus.TURN_SIGNAL_LEFT"@, "turn_signal_left"@),
        ("TellTaleStatus.SPEED_LIMIT_DISPLAYED"@, "speed_limit_displayed"@),
    ]
}

/// Creates the mapper from SDV vehicle data units to HAR topics.
pub fn create_topic_map() -> (m: HashMapTopicMapper)
    ensures
        m.entries() == insert_pairs(Seq::empty(), topic_table()),
{
    let pairs: Vec<(&str, &str)> = vec![
        ("TirePressure.REAR_LEFT", "tire_pressure_rear_left"),
        ("TirePressure.FRONT_RIGHT", "tire_pressure_front_right"),
        ("TirePressure.REAR_RIGHT", "tire_pressure_rear_right"),
        ("TirePressure.FRONT_LEFT", "tire_pressure_front_left"),
        ("TirePressure.FIFTH_WHEEL", "tire_pressure_fifth_wheel"),
        ("VehicleSpeed.VEHICLE_SPEED", "vehicle_speed"),
        ("VehicleSpeed.SPEEDLIMIT", "speed_limit"),
        ("VehicleSpeed.MAX_SPEED", "max_speed"),
        ("CurrentGear", "vehicle_gear"),
        ("TellTaleStatus.PARK_LIGHTS", "park_lights"),
        ("TellTaleStatus.ADAS", "adas"),
        ("TellTaleStatus.FOG_LIGHTS", "fog_lights"),
        ("TellTaleStatus.TRACTION", "traction"),
        ("TellTaleStatus.SEATBELT_PASSENGER", "seatbelt_passenger"),
        ("TellTaleStatus.CHECK_ENGINE", "check_engine"),
        ("TellTaleStatus.OIL_PRESSURE", "oil_pressure"),
        ("TellTaleStatus.BRAKE", "brake"),
        ("TellTaleStatus.LOWBEAM", "lowbeam"),
        ("TellTaleStatus.SEATBELT_DRIVER", "seatbelt_driver"),
        ("TellTaleStatus.CHARGING_FAILURE", "charging_failure"),
        ("TellTaleStatus.MAX_SPEED_DISPLAYED", "max_speed_displayed"),
        ("TellTaleStatus.ENGINE_TEMP", "engine_temp"),
        ("TellTaleStatus.AIRBAG", "airbag"),
        ("TellTaleStatus.EMERGENCY_LIGHT", "emergency_light"),
        ("TellTaleStatus.ABS", "abs"),
        ("TellTaleStatus.HIBEAM", "hibeam"),
        ("TellTaleStatus.TURN_SIGNAL_RIGHT", "turn_signal_right"),
        ("TellTaleStatus.LOW_TIRE_PRESSURE", "low_tire_pressure"),
        ("TellTaleStatus.TURN_SIGNAL_LEFT", "turn_signal_left"),
        ("TellTaleStatus.SPEED_LIMIT_DISPLAYED", "speed_limit_displayed"),
    ];
    assert(pair_views(pairs@) =~= topic_table());
    HashMapTopicMapper::from_pairs(&pairs)
}

} // verus!
