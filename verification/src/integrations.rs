//! The topic names of the HAR-SDV service that runs as a process.

use crate::mapper::{insert_pairs, pair_views, HashMapTopicMapper};
use vstd::prelude::*;

verus! {

/// The SDV topic names and the HAR topic names they map to.
pub open spec fn topic_table() -> Seq<(Seq<char>, Seq<char>)> {
    seq![
        ("har.vehicledata.TirePressure.REAR_LEFT"@, "tire_pressure_rear_left"@),
        ("har.vehicledata.TirePressure.FRONT_RIGHT"@, "tire_pressure_front_right"@),
        ("har.vehicledata.TirePressure.REAR_RIGHT"@, "tire_pressure_rear_right"@),
        ("har.vehicledata.TirePressure.FRONT_LEFT"@, "tire_pressure_front_left"@),
        ("har.vehicledata.TirePressure.FIFTH_WHEEL"@, "tire_pressure_fifth_wheel"@),
        ("har.vehicledata.VehicleSpeed.VEHICLE_SPEED"@, "vehicle_speed"@),
        ("har.vehicledata.VehicleSpeed.SPEEDLIMIT"@, "speed_limit"@),
        ("har.vehicledata.VehicleSpeed.MAX_SPEED"@, "max_speed"@),
        ("har.vehicledata.CurrentGear.GEAR"@, "vehicle_gear"@),
        ("har.vehicledata.TellTaleStatus.PARK_LIGHTS"@, "park_lights"@),
        ("har.vehicledata.TellTaleStatus.ADAS"@, "adas"@),
        ("har.vehicledata.TellTaleStatus.FOG_LIGHTS"@, "fog_lights"@),
        ("har.vehicledata.TellTaleStatus.TRACTION"@, "traction"@),
        ("har.vehicledata.TellTaleStatus.SEATBELT_PASSENGER"@, "seatbelt_passenger"@),
        ("har.vehicledata.TellTaleStatus.CHECK_ENGINE"@, "check_engine"@),
        ("har.vehicledata.TellTaleStatus.OIL_PRESSURE"@, "oil_pressure"@),
        ("har.vehicledata.TellTaleStatus.BRAKE"@, "brake"@),
        ("har.vehicledata.TellTaleStatus.LOWBEAM"@, "lowbeam"@),
        ("har.vehicledata.TellTaleStatus.SEATBELT_DRIVER"@, "seatbelt_driver"@),
        ("har.vehicledata.TellTaleStatus.CHARGING_FAILURE"@, "charging_failure"@),
        ("har.vehicledata.TellTaleStatus.MAX_SPEED_DISPLAYED"@, "max_speed_displayed"@),
        ("har.vehicledata.TellTaleStatus.ENGINE_TEMP"@, "engine_temp"@),
        ("har.vehicledata.TellTaleStatus.AIRBAG"@, "airbag"@),
        ("har.vehicledata.TellTaleStatus.EMERGENCY_LIGHT"@, "emergency_light"@),
        ("har.vehicledata.TellTaleStatus.ABS"@, "abs"@),
        ("har.vehicledata.TellTaleStatus.HIBEAM"@, "hibeam"@),
        ("har.vehicledata.TellTaleStatus.TURN_SIGNAL_RIGHT"@, "turn_signal_right"@),
        ("har.vehicledata.TellTaleStatus.LOW_TIRE_PRESSURE"@, "low_tire_pressure"@),
        ("har.vehicledata.TellTaleStatus.TURN_SIGNAL_LEFT"@, "turn_signal_left"@),
        ("har.vehicledata.TellTaleStatus.SPEED_LIMIT_DISPLAYED"@, "speed_limit_displayed"@),
        ("TEMPERATURE_UNITS"@, "sdv.preferences.temperature_units"@),
        ("DISTANCE_UNITS"@, "sdv.preferences.distance_units"@),
    ]
}

/// Creates the mapper from SDV vehicle data topics and user preferences to HAR topics.
pub fn create_topic_map() -> (m: HashMapTopicMapper)
    ensures
        m.entries() == insert_pairs(Seq::empty(), topic_table()),
{
    let pairs: Vec<(&str, &str)> = vec![
        ("har.vehicledata.TirePressure.REAR_LEFT", "tire_pressure_rear_left"),
        ("har.vehicledata.TirePressure.FRONT_RIGHT", "tire_pressure_front_right"),
        ("har.vehicledata.TirePressure.REAR_RIGHT", "tire_pressure_rear_right"),
        ("har.vehicledata.TirePressure.FRONT_LEFT", "tire_pressure_front_left"),
        ("har.vehicledata.TirePressure.FIFTH_WHEEL", "tire_pressure_fifth_wheel"),
        ("har.vehicledata.VehicleSpeed.VEHICLE_SPEED", "vehicle_speed"),
        ("har.vehicledata.VehicleSpeed.SPEEDLIMIT", "speed_limit"),
        ("har.vehicledata.VehicleSpeed.MAX_SPEED", "max_speed"),
        ("har.vehicledata.CurrentGear.GEAR", "vehicle_gear"),
        ("har.vehicledata.TellTaleStatus.PARK_LIGHTS", "park_lights"),
        ("har.vehicledata.TellTaleStatus.ADAS", "adas"),
        ("har.vehicledata.TellTaleStatus.FOG_LIGHTS", "fog_lights"),
        ("har.vehicledata.TellTaleStatus.TRACTION", "traction"),
        ("har.vehicledata.TellTaleStatus.SEATBELT_PASSENGER", "seatbelt_passenger"),
        ("har.vehicledata.TellTaleStatus.CHECK_ENGINE", "check_engine"),
        ("har.vehicledata.TellTaleStatus.OIL_PRESSURE", "oil_pressure"),
        ("har.vehicledata.TellTaleStatus.BRAKE", "brake"),
        ("har.vehicledata.TellTaleStatus.LOWBEAM", "lowbeam"),
        ("har.vehicledata.TellTaleStatus.SEATBELT_DRIVER", "seatbelt_driver"),
        ("har.vehicledata.TellTaleStatus.CHARGING_FAILURE", "charging_failure"),
        ("har.vehicledata.TellTaleStatus.MAX_SPEED_DISPLAYED", "max_speed_displayed"),
        ("har.vehicledata.TellTaleStatus.ENGINE_TEMP", "engine_temp"),
        ("har.vehicledata.TellTaleStatus.AIRBAG", "airbag"),
        ("har.vehicledata.TellTaleStatus.EMERGENCY_LIGHT", "emergency_light"),
        ("har.vehicledata.TellTaleStatus.ABS", "abs"),
        ("har.vehicledata.TellTaleStatus.HIBEAM", "hibeam"),
        ("har.vehicledata.TellTaleStatus.TURN_SIGNAL_RIGHT", "turn_signal_right"),
        ("har.vehicledata.TellTaleStatus.LOW_TIRE_PRESSURE", "low_tire_pressure"),
        ("har.vehicledata.TellTaleStatus.TURN_SIGNAL_LEFT", "turn_signal_left"),
        ("har.vehicledata.TellTaleStatus.SPEED_LIMIT_DISPLAYED", "speed_limit_displayed"),
        ("TEMPERATURE_UNITS", "sdv.preferences.temperature_units"),
        ("DISTANCE_UNITS", "sdv.preferences.distance_units"),
    ];
    assert(pair_views(pairs@) =~= topic_table());
    HashMapTopicMapper::from_pairs(&pairs)
}

} // verus!
