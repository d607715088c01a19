//! The vehicle data topics: telltales, speed topics, tire locations and gears,
//! with their wire numbers and their names.

use vstd::prelude::*;

verus! {

/// A telltale lamp of the instrument cluster.
#[derive(PartialEq, Eq, Structural, Clone, Copy, Debug)]
pub enum Telltale {
    OIL_PRESSURE,
    ENGINE_TEMP,
    CHECK_ENGINE,
    CHARGING_FAILURE,
    SEATBELT_DRIVER,
    SEATBELT_PASSENGER,
    LOW_TIRE_PRESSURE,
    AIRBAG,
    ABS,
    BRAKE,
    TRACTION,
    FOG_LIGHTS,
    PARK_LIGHTS,
    HIBEAM,
    LOWBEAM,
    TURN_SIGNAL_LEFT,
    TURN_SIGNAL_RIGHT,
    ADAS,
    MAX_SPEED_DISPLAYED,
    SPEED_LIMIT_DISPLAYED,
    EMERGENCY_LIGHT,
}

/// Which speed a vehicle speed message reports.
#[derive(PartialEq, Eq, Structural, Clone, Copy, Debug)]
pub enum VehicleSpeedTopic {
    VEHICLE_SPEED,
    MAX_SPEED,
    SPEEDLIMIT,
}

/// The position of a tire.
#[derive(PartialEq, Eq, Structural, Clone, Copy, Debug)]
pub enum Location {
    FRONT_LEFT,
    FRONT_RIGHT,
    REAR_LEFT,
    REAR_RIGHT,
    FIFTH_WHEEL,
}

/// A gear of the gearbox.
#[derive(PartialEq, Eq, Structural, Clone, Copy, Debug)]
pub enum Gear {
    P,
    R,
    N,
    D,
}

/// Every telltale, in wire-number order.
pub open spec fn all_telltales() -> Seq<Telltale> {
    seq![
        Telltale::OIL_PRESSURE,
        Telltale::ENGINE_TEMP,
        Telltale::CHECK_ENGINE,
        Telltale::CHARGING_FAILURE,
        Telltale::SEATBELT_DRIVER,
        Telltale::SEATBELT_PASSENGER,
        Telltale::LOW_TIRE_PRESSURE,
        Telltale::AIRBAG,
        Telltale::ABS,
        Telltale::BRAKE,
        Telltale::TRACTION,
        Telltale::FOG_LIGHTS,
        Telltale::PARK_LIGHTS,
        Telltale::HIBEAM,
        Telltale::LOWBEAM,
        Telltale::TURN_SIGNAL_LEFT,
        Telltale::TURN_SIGNAL_RIGHT,
        Telltale::ADAS,
        Telltale::MAX_SPEED_DISPLAYED,
        Telltale::SPEED_LIMIT_DISPLAYED,
        Telltale::EMERGENCY_LIGHT,
    ]
}

/// Every speed topic, in wire-number order.
pub open spec fn all_speed_topics() -> Seq<VehicleSpeedTopic> {
    seq![VehicleSpeedTopic::VEHICLE_SPEED, VehicleSpeedTopic::MAX_SPEED, VehicleSpeedTopic::SPEEDLIMIT]
}

/// Every tire location, in wire-number order.
pub open spec fn all_locations() -> Seq<Location> {
    seq![
        Location::FRONT_LEFT,
        Location::FRONT_RIGHT,
        Location::REAR_LEFT,
        Location::REAR_RIGHT,
        Location::FIFTH_WHEEL,
    ]
}

/// Every gear, in wire-number order.
pub open spec fn all_gears() -> Seq<Gear> {
    seq![Gear::P, Gear::R, Gear::N, Gear::D]
}

/// The enum value that a wire number stands for, if any: the number is the
/// position in `all`.
pub open spec fn decoded<T>(all: Seq<T>, n: i32) -> Option<T> {
    if 0 <= n < all.len() {
        Some(all[n as int])
    } else {
        None
    }
}

/// Decodes a telltale from its wire number.
pub fn telltale_from_number(n: i32) -> (r: Option<Telltale>)
    ensures
        r == decoded(all_telltales(), n),
{
    match n {
        0 => Some(Telltale::OIL_PRESSURE),
        1 => Some(Telltale::ENGINE_TEMP),
        2 => Some(Telltale::CHECK_ENGINE),
        3 => Some(Telltale::CHARGING_FAILURE),
        4 => Some(Telltale::SEATBELT_DRIVER),
        5 => Some(Telltale::SEATBELT_PASSENGER),
        6 => Some(Telltale::LOW_TIRE_PRESSURE),
        7 => Some(Telltale::AIRBAG),
        8 => Some(Telltale::ABS),
        9 => Some(Telltale::BRAKE),
        10 => Some(Telltale::TRACTION),
        11 => Some(Telltale::FOG_LIGHTS),
        12 => Some(Telltale::PARK_LIGHTS),
        13 => Some(Telltale::HIBEAM),
        14 => Some(Telltale::LOWBEAM),
        15 => Some(Telltale::TURN_SIGNAL_LEFT),
        16 => Some(Telltale::TURN_SIGNAL_RIGHT),
        17 => Some(Telltale::ADAS),
        18 => Some(Telltale::MAX_SPEED_DISPLAYED),
        19 => Some(Telltale::SPEED_LIMIT_DISPLAYED),
        20 => Some(Telltale::EMERGENCY_LIGHT),
        _ => None,
    }
}

/// Decodes a speed topic from its wire number.
pub fn speed_topic_from_number(n: i32) -> (r: Option<VehicleSpeedTopic>)
    ensures
        r == decoded(all_speed_topics(), n),
{
    match n {
        0 => Some(VehicleSpeedTopic::VEHICLE_SPEED),
        1 => Some(VehicleSpeedTopic::MAX_SPEED),
        2 => Some(VehicleSpeedTopic::SPEEDLIMIT),
        _ => None,
    }
}

/// Decodes a tire location from its wire number.
pub fn location_from_number(n: i32) -> (r: Option<Location>)
    ensures
        r == decoded(all_locations(), n),
{
    match n {
        0 => Some(Location::FRONT_LEFT),
        1 => Some(Location::FRONT_RIGHT),
        2 => Some(Location::REAR_LEFT),
        3 => Some(Location::REAR_RIGHT),
        4 => Some(Location::FIFTH_WHEEL),
        _ => None,
    }
}

/// Decodes a gear from its wire number.
pub fn gear_from_number(n: i32) -> (r: Option<Gear>)
    ensures
        r == decoded(all_gears(), n),
{
    match n {
        0 => Some(Gear::P),
        1 => Some(Gear::R),
        2 => Some(Gear::N),
        3 => Some(Gear::D),
        _ => None,
    }
}

/// The wire number of a telltale: its position in `all_telltales()`.
pub open spec fn telltale_position(t: Telltale) -> int {
    match t {
        Telltale::OIL_PRESSURE => 0,
        Telltale::ENGINE_TEMP => 1,
        Telltale::CHECK_ENGINE => 2,
        Telltale::CHARGING_FAILURE => 3,
        Telltale::SEATBELT_DRIVER => 4,
        Telltale::SEATBELT_PASSENGER => 5,
        Telltale::LOW_TIRE_PRESSURE => 6,
        Telltale::AIRBAG => 7,
        Telltale::ABS => 8,
        Telltale::BRAKE => 9,
        Telltale::TRACTION => 10,
        Telltale::FOG_LIGHTS => 11,
        Telltale::PARK_LIGHTS => 12,
        Telltale::HIBEAM => 13,
        Telltale::LOWBEAM => 14,
        Telltale::TURN_SIGNAL_LEFT => 15,
        Telltale::TURN_SIGNAL_RIGHT => 16,
        Telltale::ADAS => 17,
        Telltale::MAX_SPEED_DISPLAYED => 18,
        Telltale::SPEED_LIMIT_DISPLAYED => 19,
        Telltale::EMERGENCY_LIGHT => 20,
    }
}

/// The wire number of a telltale.
pub fn telltale_number(t: Telltale) -> (n: i32)
    ensures
        n == telltale_position(t),
        0 <= n < all_telltales().len(),
        all_telltales()[n as int] == t,
{
    match t {
        Telltale::OIL_PRESSURE => 0,
        Telltale::ENGINE_TEMP => 1,
        Telltale::CHECK_ENGINE => 2,
        Telltale::CHARGING_FAILURE => 3,
        Telltale::SEATBELT_DRIVER => 4,
        Telltale::SEATBELT_PASSENGER => 5,
        Telltale::LOW_TIRE_PRESSURE => 6,
        Telltale::AIRBAG => 7,
        Telltale::ABS => 8,
        Telltale::BRAKE => 9,
        Telltale::TRACTION => 10,
        Telltale::FOG_LIGHTS => 11,
        Telltale::PARK_LIGHTS => 12,
        Telltale::HIBEAM => 13,
        Telltale::LOWBEAM => 14,
        Telltale::TURN_SIGNAL_LEFT => 15,
        Telltale::TURN_SIGNAL_RIGHT => 16,
        Telltale::ADAS => 17,
        Telltale::MAX_SPEED_DISPLAYED => 18,
        Telltale::SPEED_LIMIT_DISPLAYED => 19,
        Telltale::EMERGENCY_LIGHT => 20,
    }
}

/// The wire number of a speed topic: its position in `all_speed_topics()`.
pub open spec fn speed_topic_position(t: VehicleSpeedTopic) -> int {
    match t {
        VehicleSpeedTopic::VEHICLE_SPEED => 0,
        VehicleSpeedTopic::MAX_SPEED => 1,
        VehicleSpeedTopic::SPEEDLIMIT => 2,
    }
}

/// The wire number of a tire location: its position in `all_locations()`.
pub open spec fn location_position(l: Location) -> int {
    match l {
        Location::FRONT_LEFT => 0,
        Location::FRONT_RIGHT => 1,
        Location::REAR_LEFT => 2,
        Location::REAR_RIGHT => 3,
        Location::FIFTH_WHEEL => 4,
    }
}

/// The wire number of a gear: its position in `all_gears()`.
pub open spec fn gear_position(g: Gear) -> int {
    match g {
        Gear::P => 0,
        Gear::R => 1,
        Gear::N => 2,
        Gear::D => 3,
    }
}

/// The wire number of a speed topic.
pub fn speed_topic_number(t: VehicleSpeedTopic) -> (n: i32)
    ensures
        n == speed_topic_position(t),
        0 <= n < all_speed_topics().len(),
        all_speed_topics()[n as int] == t,
{
    match t {
        VehicleSpeedTopic::VEHICLE_SPEED => 0,
        VehicleSpeedTopic::MAX_SPEED => 1,
        VehicleSpeedTopic::SPEEDLIMIT => 2,
    }
}

/// The wire number of a tire location.
pub fn location_number(l: Location) -> (n: i32)
    ensures
        n == location_position(l),
        0 <= n < all_locations().len(),
        all_locations()[n as int] == l,
{
    match l {
        Location::FRONT_LEFT => 0,
        Location::FRONT_RIGHT => 1,
        Location::REAR_LEFT => 2,
        Location::REAR_RIGHT => 3,
        Location::FIFTH_WHEEL => 4,
    }
}

/// The wire number of a gear.
pub fn gear_number(g: Gear) -> (n: i32)
    ensures
        n == gear_position(g),
        0 <= n < all_gears().len(),
        all_gears()[n as int] == g,
{
    match g {
        Gear::P => 0,
        Gear::R => 1,
        Gear::N => 2,
        Gear::D => 3,
    }
}

/// The name of a telltale, as the unit variants spell it.
pub open spec fn telltale_name(t: Telltale) -> Seq<char> {
    match t {
        Telltale::OIL_PRESSURE => "OIL_PRESSURE"@,
        Telltale::ENGINE_TEMP => "ENGINE_TEMP"@,
        Telltale::CHECK_ENGINE => "CHECK_ENGINE"@,
        Telltale::CHARGING_FAILURE => "CHARGING_FAILURE"@,
        Telltale::SEATBELT_DRIVER => "SEATBELT_DRIVER"@,
        Telltale::SEATBELT_PASSENGER => "SEATBELT_PASSENGER"@,
        Telltale::LOW_TIRE_PRESSURE => "LOW_TIRE_PRESSURE"@,
        Telltale::AIRBAG => "AIRBAG"@,
        Telltale::ABS => "ABS"@,
        Telltale::BRAKE => "BRAKE"@,
        Telltale::TRACTION => "TRACTION"@,
        Telltale::FOG_LIGHTS => "FOG_LIGHTS"@,
        Telltale::PARK_LIGHTS => "PARK_LIGHTS"@,
        Telltale::HIBEAM => "HIBEAM"@,
        Telltale::LOWBEAM => "LOWBEAM"@,
        Telltale::TURN_SIGNAL_LEFT => "TURN_SIGNAL_LEFT"@,
        Telltale::TURN_SIGNAL_RIGHT => "TURN_SIGNAL_RIGHT"@,
        Telltale::ADAS => "ADAS"@,
        Telltale::MAX_SPEED_DISPLAYED => "MAX_SPEED_DISPLAYED"@,
        Telltale::SPEED_LIMIT_DISPLAYED => "SPEED_LIMIT_DISPLAYED"@,
        Telltale::EMERGENCY_LIGHT => "EMERGENCY_LIGHT"@,
    }
}

/// The name of a telltale.
pub fn telltale_name_text(t: Telltale) -> (s: &'static str)
    ensures
        s@ == telltale_name(t),
{
    match t {
        Telltale::OIL_PRESSURE => "OIL_PRESSURE",
        Telltale::ENGINE_TEMP => "ENGINE_TEMP",
        Telltale::CHECK_ENGINE => "CHECK_ENGINE",
        Telltale::CHARGING_FAILURE => "CHARGING_FAILURE",
        Telltale::SEATBELT_DRIVER => "SEATBELT_DRIVER",
        Telltale::SEATBELT_PASSENGER => "SEATBELT_PASSENGER",
        Telltale::LOW_TIRE_PRESSURE => "LOW_TIRE_PRESSURE",
        Telltale::AIRBAG => "AIRBAG",
        Telltale::ABS => "ABS",
        Telltale::BRAKE => "BRAKE",
        Telltale::TRACTION => "TRACTION",
        Telltale::FOG_LIGHTS => "FOG_LIGHTS",
        Telltale::PARK_LIGHTS => "PARK_LIGHTS",
        Telltale::HIBEAM => "HIBEAM",
        Telltale::LOWBEAM => "LOWBEAM",
        Telltale::TURN_SIGNAL_LEFT => "TURN_SIGNAL_LEFT",
        Telltale::TURN_SIGNAL_RIGHT => "TURN_SIGNAL_RIGHT",
        Telltale::ADAS => "ADAS",
        Telltale::MAX_SPEED_DISPLAYED => "MAX_SPEED_DISPLAYED",
        Telltale::SPEED_LIMIT_DISPLAYED => "SPEED_LIMIT_DISPLAYED",
        Telltale::EMERGENCY_LIGHT => "EMERGENCY_LIGHT",
    }
}

/// The name of a speed topic.
pub open spec fn speed_topic_name(t: VehicleSpeedTopic) -> Seq<char> {
    match t {
        VehicleSpeedTopic::VEHICLE_SPEED => "VEHICLE_SPEED"@,
        VehicleSpeedTopic::MAX_SPEED => "MAX_SPEED"@,
        VehicleSpeedTopic::SPEEDLIMIT => "SPEEDLIMIT"@,
    }
}

/// The name of a speed topic.
pub fn speed_topic_name_text(t: VehicleSpeedTopic) -> (s: &'static str)
    ensures
        s@ == speed_topic_name(t),
{
    match t {
        VehicleSpeedTopic::VEHICLE_SPEED => "VEHICLE_SPEED",
        VehicleSpeedTopic::MAX_SPEED => "MAX_SPEED",
        VehicleSpeedTopic::SPEEDLIMIT => "SPEEDLIMIT",
    }
}

/// The name of a tire location.
pub open spec fn location_name(l: Location) -> Seq<char> {
    match l {
        Location::FRONT_LEFT => "FRONT_LEFT"@,
        Location::FRONT_RIGHT => "FRONT_RIGHT"@,
        Location::REAR_LEFT => "REAR_LEFT"@,
        Location::REAR_RIGHT => "REAR_RIGHT"@,
        Location::FIFTH_WHEEL => "FIFTH_WHEEL"@,
    }
}

/// The name of a tire location.
pub fn location_name_text(l: Location) -> (s: &'static str)
    ensures
        s@ == location_name(l),
{
    match l {
        Location::FRONT_LEFT => "FRONT_LEFT",
        Location::FRONT_RIGHT => "FRONT_RIGHT",
        Location::REAR_LEFT => "REAR_LEFT",
        Location::REAR_RIGHT => "REAR_RIGHT",
        Location::FIFTH_WHEEL => "FIFTH_WHEEL",
    }
}

/// The one-letter name of a gear.
pub open spec fn gear_letter(g: Gear) -> Seq<char> {
    match g {
        Gear::P => "P"@,
        Gear::R => "R"@,
        Gear::N => "N"@,
        Gear::D => "D"@,
    }
}

/// The one-letter name of a gear.
pub fn gear_letter_text(g: Gear) -> (s: &'static str)
    ensures
        s@ == gear_letter(g),
{
    match g {
        Gear::P => "P",
        Gear::R => "R",
        Gear::N => "N",
        Gear::D => "D",
    }
}

/// Every telltale, in wire-number order.
pub fn telltale_values() -> (v: Vec<Telltale>)
    ensures
        v@ == all_telltales(),
{
    let v = vec![
        Telltale::OIL_PRESSURE,
        Telltale::ENGINE_TEMP,
        Telltale::CHECK_ENGINE,
        Telltale::CHARGING_FAILURE,
        Telltale::SEATBELT_DRIVER,
        Telltale::SEATBELT_PASSENGER,
        Telltale::LOW_TIRE_PRESSURE,
        Telltale::AIRBAG,
        Telltale::ABS,
        Telltale::BRAKE,
        Telltale::TRACTION,
        Telltale::FOG_LIGHTS,
        Telltale::PARK_LIGHTS,
        Telltale::HIBEAM,
        Telltale::LOWBEAM,
        Telltale::TURN_SIGNAL_LEFT,
        Telltale::TURN_SIGNAL_RIGHT,
        Telltale::ADAS,
        Telltale::MAX_SPEED_DISPLAYED,
        Telltale::SPEED_LIMIT_DISPLAYED,
        Telltale::EMERGENCY_LIGHT,
    ];
    assert(v@ =~= all_telltales());
    v
}

} // verus!
