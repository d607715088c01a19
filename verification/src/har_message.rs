//! The vehicle data that the HAR-SDV service observes on the data tunnel, the
//! messages it makes of it, and the HAR fragments it sends for them.

use crate::integrations_v1::topic_table;
use crate::keyed::{has_key, lookup};
use crate::mapper::{
    insert_pairs, lemma_insert_pairs_has_key, lemma_insert_pairs_value, HashMapTopicMapper,
    SdvToHarMapper, TopicMapper, VehicleData, VehicleDataPointView, VehicleDataView,
};
use crate::text::concat;
use crate::vehicle_data::model::{CurrentGear, TellTaleStatus, TirePressure, VehicleSpeed};
use crate::vehicle_data::publishers::{publisher_order, PublisherVariant};
use crate::vehicle_data::topics::{
    all_locations, all_speed_topics, all_telltales, gear_letter, gear_letter_text, location_name,
    location_name_text, speed_topic_name, speed_topic_name_text, telltale_name, telltale_name_text,
    Gear, Location, Telltale, VehicleSpeedTopic,
};
use vstd::prelude::*;

verus! {

/// Milliseconds to wait before trying again to start the observer of a unit;
/// the service bundle tries until it succeeds.
pub const OBSERVER_RETRY_DELAY_MS: u64 = 200;

/// Seconds the service bundle allows for starting the observers of all units.
pub const MONITORING_START_TIMEOUT_SECS: u64 = 20;

/// How many messages may wait on their way to HAR.
pub const HAR_MESSAGE_QUEUE_CAPACITY: usize = 32;

/// A message for HAR's vehicle data server: a key and a value.
#[derive(Debug)]
pub enum HarMessage {
    TellTaleStatus(String, bool),
    VehicleSpeed(String, i32),
    TirePressure(String, u32),
    CurrentGear(String, Gear),
}

/// The key of a message.
pub open spec fn message_key(m: HarMessage) -> Seq<char> {
    match m {
        HarMessage::TellTaleStatus(k, _) => k@,
        HarMessage::VehicleSpeed(k, _) => k@,
        HarMessage::TirePressure(k, _) => k@,
        HarMessage::CurrentGear(k, _) => k@,
    }
}

/// The key of a speed topic.
pub fn vehicle_speed_to_string(topic: VehicleSpeedTopic) -> (s: String)
    ensures
        s@ == "VehicleSpeed."@ + speed_topic_name(topic),
{
    concat("VehicleSpeed.", speed_topic_name_text(topic))
}

/// The key of a telltale.
pub fn telltale_status_to_string(telltale: Telltale) -> (s: String)
    ensures
        s@ == "TellTaleStatus."@ + telltale_name(telltale),
{
    concat("TellTaleStatus.", telltale_name_text(telltale))
}

/// The key of a tire.
pub fn tire_pressure_to_string(location: Location) -> (s: String)
    ensures
        s@ == "TirePressure."@ + location_name(location),
{
    concat("TirePressure.", location_name_text(location))
}

/// The key of the gear.
pub fn gear_to_string() -> (s: String)
    ensures
        s@ == "CurrentGear"@,
{
    String::from_str("CurrentGear")
}

/// The message for an observed gear.
pub fn gear_message(message: CurrentGear) -> (m: HarMessage)
    ensures
        m matches HarMessage::CurrentGear(k, g) && k@ == "CurrentGear"@ && g == message.gear,
{
    HarMessage::CurrentGear(gear_to_string(), message.gear)
}

/// The message for an observed telltale status.
pub fn telltale_message(telltale: Telltale, message: TellTaleStatus) -> (m: HarMessage)
    ensures
        m matches HarMessage::TellTaleStatus(k, a) && k@ == "TellTaleStatus."@ + telltale_name(
            telltale,
        ) && a == message.alert,
{
    HarMessage::TellTaleStatus(telltale_status_to_string(telltale), message.alert)
}

/// The message for an observed tire pressure.
pub fn tire_pressure_message(location: Location, message: TirePressure) -> (m: HarMessage)
    ensures
        m matches HarMessage::TirePressure(k, p) && k@ == "TirePressure."@ + location_name(location)
            && p == message.pressure,
{
    HarMessage::TirePressure(tire_pressure_to_string(location), message.pressure)
}

/// The message for an observed speed; the speed is reinterpreted as signed.
pub fn vehicle_speed_message(topic: VehicleSpeedTopic, message: VehicleSpeed) -> (m: HarMessage)
    ensures
        m matches HarMessage::VehicleSpeed(k, s) && k@ == "VehicleSpeed."@ + speed_topic_name(topic)
            && s == message.speed as i32,
{
    HarMessage::VehicleSpeed(vehicle_speed_to_string(topic), message.speed as i32)
}

/// The units that the service observes, in the order it subscribes to them:
/// the gear, the telltales, the tires, then the speeds.
pub open spec fn monitoring_order() -> Seq<PublisherVariant> {
    seq![PublisherVariant::Gear] + all_telltales().map_values(
        |t: Telltale| PublisherVariant::Telltale(t),
    ) + all_locations().map_values(|l: Location| PublisherVariant::Tire(l))
        + all_speed_topics().map_values(|s: VehicleSpeedTopic| PublisherVariant::Speed(s))
}

/// The units that the service observes, in the order it subscribes to them.
pub fn monitored_units() -> (v: Vec<PublisherVariant>)
    ensures
        v@ == monitoring_order(),
        v@.to_set() == publisher_order().to_set(),
{
    let all = crate::vehicle_data::publishers::publisher_variants();
    let mut v: Vec<PublisherVariant> = Vec::new();
    v.push(all[29]);
    let mut i: usize = 0;
    while i < 21
        invariant
            0 <= i <= 21,
            all@ == publisher_order(),
            publisher_order().len() == 30,
            v@ == seq![PublisherVariant::Gear] + publisher_order().subrange(0, i as int),
        decreases 21 - i,
    {
        v.push(all[i]);
        i = i + 1;
        assert(v@ =~= seq![PublisherVariant::Gear] + publisher_order().subrange(0, i as int));
    }
    v.push(all[24]);
    v.push(all[25]);
    v.push(all[26]);
    v.push(all[27]);
    v.push(all[28]);
    v.push(all[21]);
    v.push(all[22]);
    v.push(all[23]);
    assert(v@ =~= monitoring_order());
    assert(v@.to_set() =~= publisher_order().to_set()) by {
        assert forall|u: PublisherVariant| v@.to_set().contains(u) implies publisher_order().to_set().contains(u) by {
            let k = choose|k: int| 0 <= k < v@.len() && v@[k] == u;
            if k == 0 {
                assert(publisher_order()[29] == u);
            } else if k < 22 {
                assert(publisher_order()[k - 1] == u);
            } else if k < 27 {
                assert(publisher_order()[k + 2] == u);
            } else {
                assert(publisher_order()[k - 6] == u);
            }
        }
        assert forall|u: PublisherVariant| publisher_order().to_set().contains(u) implies v@.to_set().contains(u) by {
            let k = choose|k: int| 0 <= k < publisher_order().len() && publisher_order()[k] == u;
            if k == 29 {
                assert(v@[0] == u);
            } else if k < 21 {
                assert(v@[k + 1] == u);
            } else if k < 24 {
                assert(v@[k + 6] == u);
            } else {
                assert(v@[k - 2] == u);
            }
        }
    }
    v
}

/// A message observed on the data tunnel, with the unit it came from.
#[derive(Debug)]
pub enum UnitMessage {
    Speed(VehicleSpeedTopic, VehicleSpeed),
    Telltale(Telltale, TellTaleStatus),
    Tire(Location, TirePressure),
    Gear(CurrentGear),
}

/// The value that an observed message carries, by kind.
pub open spec fn same_value(u: UnitMessage, m: HarMessage) -> bool {
    match (u, m) {
        (UnitMessage::Speed(_, v), HarMessage::VehicleSpeed(_, s)) => s == v.speed as i32,
        (UnitMessage::Telltale(_, v), HarMessage::TellTaleStatus(_, a)) => a == v.alert,
        (UnitMessage::Tire(_, v), HarMessage::TirePressure(_, p)) => p == v.pressure,
        (UnitMessage::Gear(v), HarMessage::CurrentGear(_, g)) => g == v.gear,
        _ => false,
    }
}

/// The key under which the service bundle reports an observed unit.
pub open spec fn unit_key(u: UnitMessage) -> Seq<char> {
    match u {
        UnitMessage::Speed(t, _) => "VehicleSpeed."@ + speed_topic_name(t),
        UnitMessage::Telltale(t, _) => "TellTaleStatus."@ + telltale_name(t),
        UnitMessage::Tire(l, _) => "TirePressure."@ + location_name(l),
        UnitMessage::Gear(_) => "CurrentGear"@,
    }
}

/// The message the service bundle makes of an observed unit message.
pub fn observed_message(u: UnitMessage) -> (m: HarMessage)
    ensures
        message_key(m) == unit_key(u),
        same_value(u, m),
{
    match u {
        UnitMessage::Speed(t, v) => vehicle_speed_message(t, v),
        UnitMessage::Telltale(t, v) => telltale_message(t, v),
        UnitMessage::Tire(l, v) => tire_pressure_message(l, v),
        UnitMessage::Gear(v) => gear_message(v),
    }
}

/// The fragment that HAR receives for a message.
pub open spec fn har_fragment<M: TopicMapper>(mapper: SdvToHarMapper<M>, m: HarMessage) -> VehicleDataView {
    match m {
        HarMessage::TellTaleStatus(k, v) => mapper.fragment(k@, VehicleDataPointView::Bool(v)),
        HarMessage::VehicleSpeed(k, v) => mapper.fragment(k@, VehicleDataPointView::I32(v)),
        HarMessage::TirePressure(k, v) => mapper.fragment(k@, VehicleDataPointView::U32(v)),
        HarMessage::CurrentGear(k, g) => mapper.fragment(
            k@,
            VehicleDataPointView::String(gear_letter(g)),
        ),
    }
}

/// Turns a message into the fragment sent to HAR: telltales as booleans,
/// speeds as signed numbers, pressures as unsigned numbers and gears as their
/// letter.
pub fn har_message_to_vehicle_data<M: TopicMapper>(
    mapper: &SdvToHarMapper<M>,
    message: HarMessage,
) -> (r: VehicleData)
    ensures
        r@ == har_fragment(*mapper, message),
{
    match message {
        HarMessage::TellTaleStatus(key, value) => mapper.map_bool(key, value),
        HarMessage::VehicleSpeed(key, value) => mapper.map_i32(key, value),
        HarMessage::TirePressure(key, value) => mapper.map_u32(key, value),
        HarMessage::CurrentGear(key, value) => mapper.map_string(
            key,
            String::from_str(gear_letter_text(value)),
        ),
    }
}

/// Every key the service bundle reports an observed unit under has an entry
/// in its topic table, so HAR receives every observed unit under a HAR name.
pub proof fn law_observed_units_have_har_names(u: UnitMessage)
    ensures
        has_key(insert_pairs(Seq::empty(), topic_table()), unit_key(u)),
{
    match u {
        UnitMessage::Telltale(Telltale::OIL_PRESSURE, _) => {
            reveal_strlit("TellTaleStatus.");
            reveal_strlit("OIL_PRESSURE");
            reveal_strlit("TellTaleStatus.OIL_PRESSURE");
            assert("TellTaleStatus."@ + "OIL_PRESSURE"@ =~= "TellTaleStatus.OIL_PRESSURE"@);
            lemma_insert_pairs_has_key(Seq::empty(), topic_table(), 15);
        },
        UnitMessage::Telltale(Telltale::ENGINE_TEMP, _) => {
            reveal_strlit("TellTaleStatus.");
            reveal_strlit("ENGINE_TEMP");
            reveal_strlit("TellTaleStatus.ENGINE_TEMP");
            assert("TellTaleStatus."@ + "ENGINE_TEMP"@ =~= "TellTaleStatus.ENGINE_TEMP"@);
            lemma_insert_pairs_has_key(Seq::empty(), topic_table(), 21);
        },
        UnitMessage::Telltale(Telltale::CHECK_ENGINE, _) => {
            reveal_strlit("TellTaleStatus.");
            reveal_strlit("CHECK_ENGINE");
            reveal_strlit("TellTaleStatus.CHECK_ENGINE");
            assert("TellTaleStatus."@ + "CHECK_ENGINE"@ =~= "TellTaleStatus.CHECK_ENGINE"@);
            lemma_insert_pairs_has_key(Seq::empty(), topic_table(), 14);
        },
        UnitMessage::Telltale(Telltale::CHARGING_FAILURE, _) => {
            reveal_strlit("TellTaleStatus.");
            reveal_strlit("CHARGING_FAILURE");
            reveal_strlit("TellTaleStatus.CHARGING_FAILURE");
            assert("TellTaleStatus."@ + "CHARGING_FAILURE"@ =~= "TellTaleStatus.CHARGING_FAILURE"@);
            lemma_insert_pairs_has_key(Seq::empty(), topic_table(), 19);
        },
        UnitMessage::Telltale(Telltale::SEATBELT_DRIVER, _) => {
            reveal_strlit("TellTaleStatus.");
            reveal_strlit("SEATBELT_DRIVER");
            reveal_strlit("TellTaleStatus.SEATBELT_DRIVER");
            assert("TellTaleStatus."@ + "SEATBELT_DRIVER"@ =~= "TellTaleStatus.SEATBELT_DRIVER"@);
            lemma_insert_pairs_has_key(Seq::empty(), topic_table(), 18);
        },
        UnitMessage::Telltale(Telltale::SEATBELT_PASSENGER, _) => {
            reveal_strlit("TellTaleStatus.");
            reveal_strlit("SEATBELT_PASSENGER");
            reveal_strlit("TellTaleStatus.SEATBELT_PASSENGER");
            assert("TellTaleStatus."@ + "SEATBELT_PASSENGER"@ =~= "TellTaleStatus.SEATBELT_PASSENGER"@);
            lemma_insert_pairs_has_key(Seq::empty(), topic_table(), 13);
        },
        UnitMessage::Telltale(Telltale::LOW_TIRE_PRESSURE, _) => {
            reveal_strlit("TellTaleStatus.");
            reveal_strlit("LOW_TIRE_PRESSURE");
            reveal_strlit("TellTaleStatus.LOW_TIRE_PRESSURE");
            assert("TellTaleStatus."@ + "LOW_TIRE_PRESSURE"@ =~= "TellTaleStatus.LOW_TIRE_PRESSURE"@);
            lemma_insert_pairs_has_key(Seq::empty(), topic_table(), 27);
        },
        UnitMessage::Telltale(Telltale::AIRBAG, _) => {
            reveal_strlit("TellTaleStatus.");
            reveal_strlit("AIRBAG");
            reveal_strlit("TellTaleStatus.AIRBAG");
            assert("TellTaleStatus."@ + "AIRBAG"@ =~= "TellTaleStatus.AIRBAG"@);
            lemma_insert_pairs_has_key(Seq::empty(), topic_table(), 22);
        },
        UnitMessage::Telltale(Telltale::ABS, _) => {
            reveal_strlit("TellTaleStatus.");
            reveal_strlit("ABS");
            reveal_strlit("TellTaleStatus.ABS");
            assert("TellTaleStatus."@ + "ABS"@ =~= "TellTaleStatus.ABS"@);
            lemma_insert_pairs_has_key(Seq::empty(), topic_table(), 24);
        },
        UnitMessage::Telltale(Telltale::BRAKE, _) => {
            reveal_strlit("TellTaleStatus.");
            reveal_strlit("BRAKE");
            reveal_strlit("TellTaleStatus.BRAKE");
            assert("TellTaleStatus."@ + "BRAKE"@ =~= "TellTaleStatus.BRAKE"@);
            lemma_insert_pairs_has_key(Seq::empty(), topic_table(), 16);
        },
        UnitMessage::Telltale(Telltale::TRACTION, _) => {
            reveal_strlit("TellTaleStatus.");
            reveal_strlit("TRACTION");
            reveal_strlit("TellTaleStatus.TRACTION");
            assert("TellTaleStatus."@ + "TRACTION"@ =~= "TellTaleStatus.TRACTION"@);
            lemma_insert_pairs_has_key(Seq::empty(), topic_table(), 12);
        },
        UnitMessage::Telltale(Telltale::FOG_LIGHTS, _) => {
            reveal_strlit("TellTaleStatus.");
            reveal_strlit("FOG_LIGHTS");
            reveal_strlit("TellTaleStatus.FOG_LIGHTS");
            assert("TellTaleStatus."@ + "FOG_LIGHTS"@ =~= "TellTaleStatus.FOG_LIGHTS"@);
            lemma_insert_pairs_has_key(Seq::empty(), topic_table(), 11);
        },
        UnitMessage::Telltale(Telltale::PARK_LIGHTS, _) => {
            reveal_strlit("TellTaleStatus.");
            reveal_strlit("PARK_LIGHTS");
            reveal_strlit("TellTaleStatus.PARK_LIGHTS");
            assert("TellTaleStatus."@ + "PARK_LIGHTS"@ =~= "TellTaleStatus.PARK_LIGHTS"@);
            lemma_insert_pairs_has_key(Seq::empty(), topic_table(), 9);
        },
        UnitMessage::Telltale(Telltale::HIBEAM, _) => {
            reveal_strlit("TellTaleStatus.");
            reveal_strlit("HIBEAM");
            reveal_strlit("TellTaleStatus.HIBEAM");
            assert("TellTaleStatus."@ + "HIBEAM"@ =~= "TellTaleStatus.HIBEAM"@);
            lemma_insert_pairs_has_key(Seq::empty(), topic_table(), 25);
        },
        UnitMessage::Telltale(Telltale::LOWBEAM, _) => {
            reveal_strlit("TellTaleStatus.");
            reveal_strlit("LOWBEAM");
            reveal_strlit("TellTaleStatus.LOWBEAM");
            assert("TellTaleStatus."@ + "LOWBEAM"@ =~= "TellTaleStatus.LOWBEAM"@);
            lemma_insert_pairs_has_key(Seq::empty(), topic_table(), 17);
        },
        UnitMessage::Telltale(Telltale::TURN_SIGNAL_LEFT, _) => {
            reveal_strlit("TellTaleStatus.");
            reveal_strlit("TURN_SIGNAL_LEFT");
            reveal_strlit("TellTaleStatus.TURN_SIGNAL_LEFT");
            assert("TellTaleStatus."@ + "TURN_SIGNAL_LEFT"@ =~= "TellTaleStatus.TURN_SIGNAL_LEFT"@);
            lemma_insert_pairs_has_key(Seq::empty(), topic_table(), 28);
        },
        UnitMessage::Telltale(Telltale::TURN_SIGNAL_RIGHT, _) => {
            reveal_strlit("TellTaleStatus.");
            reveal_strlit("TURN_SIGNAL_RIGHT");
            reveal_strlit("TellTaleStatus.TURN_SIGNAL_RIGHT");
            assert("TellTaleStatus."@ + "TURN_SIGNAL_RIGHT"@ =~= "TellTaleStatus.TURN_SIGNAL_RIGHT"@);
            lemma_insert_pairs_has_key(Seq::empty(), topic_table(), 26);
        },
        UnitMessage::Telltale(Telltale::ADAS, _) => {
            reveal_strlit("TellTaleStatus.");
            reveal_strlit("ADAS");
            reveal_strlit("TellTaleStatus.ADAS");
            assert("TellTaleStatus."@ + "ADAS"@ =~= "TellTaleStatus.ADAS"@);
            lemma_insert_pairs_has_key(Seq::empty(), topic_table(), 10);
        },
        UnitMessage::Telltale(Telltale::MAX_SPEED_DISPLAYED, _) => {
            reveal_strlit("TellTaleStatus.");
            reveal_strlit("MAX_SPEED_DISPLAYED");
            reveal_strlit("TellTaleStatus.MAX_SPEED_DISPLAYED");
            assert("TellTaleStatus."@ + "MAX_SPEED_DISPLAYED"@ =~= "TellTaleStatus.MAX_SPEED_DISPLAYED"@);
            lemma_insert_pairs_has_key(Seq::empty(), topic_table(), 20);
        },
        UnitMessage::Telltale(Telltale::SPEED_LIMIT_DISPLAYED, _) => {
            reveal_strlit("TellTaleStatus.");
            reveal_strlit("SPEED_LIMIT_DISPLAYED");
            reveal_strlit("TellTaleStatus.SPEED_LIMIT_DISPLAYED");
            assert("TellTaleStatus."@ + "SPEED_LIMIT_DISPLAYED"@ =~= "TellTaleStatus.SPEED_LIMIT_DISPLAYED"@);
            lemma_insert_pairs_has_key(Seq::empty(), topic_table(), 29);
        },
        UnitMessage::Telltale(Telltale::EMERGENCY_LIGHT, _) => {
            reveal_strlit("TellTaleStatus.");
            reveal_strlit("EMERGENCY_LIGHT");
            reveal_strlit("TellTaleStatus.EMERGENCY_LIGHT");
            assert("TellTaleStatus."@ + "EMERGENCY_LIGHT"@ =~= "TellTaleStatus.EMERGENCY_LIGHT"@);
            lemma_insert_pairs_has_key(Seq::empty(), topic_table(), 23);
        },
        UnitMessage::Speed(VehicleSpeedTopic::VEHICLE_SPEED, _) => {
            reveal_strlit("VehicleSpeed.");
            reveal_strlit("VEHICLE_SPEED");
            reveal_strlit("VehicleSpeed.VEHICLE_SPEED");
            assert("VehicleSpeed."@ + "VEHICLE_SPEED"@ =~= "VehicleSpeed.VEHICLE_SPEED"@);
            lemma_insert_pairs_has_key(Seq::empty(), topic_table(), 5);
        },
        UnitMessage::Speed(VehicleSpeedTopic::MAX_SPEED, _) => {
            reveal_strlit("VehicleSpeed.");
            reveal_strlit("MAX_SPEED");
            reveal_strlit("VehicleSpeed.MAX_SPEED");
            assert("VehicleSpeed."@ + "MAX_SPEED"@ =~= "VehicleSpeed.MAX_SPEED"@);
            lemma_insert_pairs_has_key(Seq::empty(), topic_table(), 7);
        },
        UnitMessage::Speed(VehicleSpeedTopic::SPEEDLIMIT, _) => {
            reveal_strlit("VehicleSpeed.");
            reveal_strlit("SPEEDLIMIT");
            reveal_strlit("VehicleSpeed.SPEEDLIMIT");
            assert("VehicleSpeed."@ + "SPEEDLIMIT"@ =~= "VehicleSpeed.SPEEDLIMIT"@);
            lemma_insert_pairs_has_key(Seq::empty(), topic_table(), 6);
        },
        UnitMessage::Tire(Location::FRONT_LEFT, _) => {
            reveal_strlit("TirePressure.");
            reveal_strlit("FRONT_LEFT");
            reveal_strlit("TirePressure.FRONT_LEFT");
            assert("TirePressure."@ + "FRONT_LEFT"@ =~= "TirePressure.FRONT_LEFT"@);
            lemma_insert_pairs_has_key(Seq::empty(), topic_table(), 3);
        },
        UnitMessage::Tire(Location::FRONT_RIGHT, _) => {
            reveal_strlit("TirePressure.");
            reveal_strlit("FRONT_RIGHT");
            reveal_strlit("TirePressure.FRONT_RIGHT");
            assert("TirePressure."@ + "FRONT_RIGHT"@ =~= "TirePressure.FRONT_RIGHT"@);
            lemma_insert_pairs_has_key(Seq::empty(), topic_table(), 1);
        },
        UnitMessage::Tire(Location::REAR_LEFT, _) => {
            reveal_strlit("TirePressure.");
            reveal_strlit("REAR_LEFT");
            reveal_strlit("TirePressure.REAR_LEFT");
            assert("TirePressure."@ + "REAR_LEFT"@ =~= "TirePressure.REAR_LEFT"@);
            lemma_insert_pairs_has_key(Seq::empty(), topic_table(), 0);
        },
        UnitMessage::Tire(Location::REAR_RIGHT, _) => {
            reveal_strlit("TirePressure.");
            reveal_strlit("REAR_RIGHT");
            reveal_strlit("TirePressure.REAR_RIGHT");
            assert("TirePressure."@ + "REAR_RIGHT"@ =~= "TirePressure.REAR_RIGHT"@);
            lemma_insert_pairs_has_key(Seq::empty(), topic_table(), 2);
        },
        UnitMessage::Tire(Location::FIFTH_WHEEL, _) => {
            reveal_strlit("TirePressure.");
            reveal_strlit("FIFTH_WHEEL");
            reveal_strlit("TirePressure.FIFTH_WHEEL");
            assert("TirePressure."@ + "FIFTH_WHEEL"@ =~= "TirePressure.FIFTH_WHEEL"@);
            lemma_insert_pairs_has_key(Seq::empty(), topic_table(), 4);
        },
        UnitMessage::Gear(_) => {
            lemma_insert_pairs_has_key(Seq::empty(), topic_table(), 8);
        },
    }
}


/// Every HAR name in the service bundle's topic table starts with a lower-case
/// letter.
proof fn lemma_har_names_are_lower_case()
    ensures
        forall|j: int|
            0 <= j < topic_table().len() ==> topic_table()[j].1.len() > 0 && 'a' <= (
            #[trigger] topic_table()[j]).1[0] <= 'z',
{
    assert(topic_table().len() == 30);
    reveal_strlit("tire_pressure_rear_left");
    assert(topic_table()[0].1 == "tire_pressure_rear_left"@);
    assert("tire_pressure_rear_left"@[0] == 't');
    reveal_strlit("tire_pressure_front_right");
    assert(topic_table()[1].1 == "tire_pressure_front_right"@);
    assert("tire_pressure_front_right"@[0] == 't');
    reveal_strlit("tire_pressure_rear_right");
    assert(topic_table()[2].1 == "tire_pressure_rear_right"@);
    assert("tire_pressure_rear_right"@[0] == 't');
    reveal_strlit("tire_pressure_front_left");
    assert(topic_table()[3].1 == "tire_pressure_front_left"@);
    assert("tire_pressure_front_left"@[0] == 't');
    reveal_strlit("tire_pressure_fifth_wheel");
    assert(topic_table()[4].1 == "tire_pressure_fifth_wheel"@);
    assert("tire_pressure_fifth_wheel"@[0] == 't');
    reveal_strlit("vehicle_speed");
    assert(topic_table()[5].1 == "vehicle_speed"@);
    assert("vehicle_speed"@[0] == 'v');
    reveal_strlit("speed_limit");
    assert(topic_table()[6].1 == "speed_limit"@);
    assert("speed_limit"@[0] == 's');
    reveal_strlit("max_speed");
    assert(topic_table()[7].1 == "max_speed"@);
    assert("max_speed"@[0] == 'm');
    reveal_strlit("vehicle_gear");
    assert(topic_table()[8].1 == "vehicle_gear"@);
    assert("vehicle_gear"@[0] == 'v');
    reveal_strlit("park_lights");
    assert(topic_table()[9].1 == "park_lights"@);
    assert("park_lights"@[0] == 'p');
    reveal_strlit("adas");
    assert(topic_table()[10].1 == "adas"@);
    assert("adas"@[0] == 'a');
    reveal_strlit("fog_lights");
    assert(topic_table()[11].1 == "fog_lights"@);
    assert("fog_lights"@[0] == 'f');
    reveal_strlit("traction");
    assert(topic_table()[12].1 == "traction"@);
    assert("traction"@[0] == 't');
    reveal_strlit("seatbelt_passenger");
    assert(topic_table()[13].1 == "seatbelt_passenger"@);
    assert("seatbelt_passenger"@[0] == 's');
    reveal_strlit("check_engine");
    assert(topic_table()[14].1 == "check_engine"@);
    assert("check_engine"@[0] == 'c');
    reveal_strlit("oil_pressure");
    assert(topic_table()[15].1 == "oil_pressure"@);
    assert("oil_pressure"@[0] == 'o');
    reveal_strlit("brake");
    assert(topic_table()[16].1 == "brake"@);
    assert("brake"@[0] == 'b');
    reveal_strlit("lowbeam");
    assert(topic_table()[17].1 == "lowbeam"@);
    assert("lowbeam"@[0] == 'l');
    reveal_strlit("seatbelt_driver");
    assert(topic_table()[18].1 == "seatbelt_driver"@);
    assert("seatbelt_driver"@[0] == 's');
    reveal_strlit("charging_failure");
    assert(topic_table()[19].1 == "charging_failure"@);
    assert("charging_failure"@[0] == 'c');
    reveal_strlit("max_speed_displayed");
    assert(topic_table()[20].1 == "max_speed_displayed"@);
    assert("max_speed_displayed"@[0] == 'm');
    reveal_strlit("engine_temp");
    assert(topic_table()[21].1 == "engine_temp"@);
    assert("engine_temp"@[0] == 'e');
    reveal_strlit("airbag");
    assert(topic_table()[22].1 == "airbag"@);
    assert("airbag"@[0] == 'a');
    reveal_strlit("emergency_light");
    assert(topic_table()[23].1 == "emergency_light"@);
    assert("emergency_light"@[0] == 'e');
    reveal_strlit("abs");
    assert(topic_table()[24].1 == "abs"@);
    assert("abs"@[0] == 'a');
    reveal_strlit("hibeam");
    assert(topic_table()[25].1 == "hibeam"@);
    assert("hibeam"@[0] == 'h');
    reveal_strlit("turn_signal_right");
    assert(topic_table()[26].1 == "turn_signal_right"@);
    assert("turn_signal_right"@[0] == 't');
    reveal_strlit("low_tire_pressure");
    assert(topic_table()[27].1 == "low_tire_pressure"@);
    assert("low_tire_pressure"@[0] == 'l');
    reveal_strlit("turn_signal_left");
    assert(topic_table()[28].1 == "turn_signal_left"@);
    assert("turn_signal_left"@[0] == 't');
    reveal_strlit("speed_limit_displayed");
    assert(topic_table()[29].1 == "speed_limit_displayed"@);
    assert("speed_limit_displayed"@[0] == 's');
}

/// Every key the service bundle reports an observed unit under starts with
/// an upper-case letter.
proof fn lemma_unit_keys_are_capitalized(u: UnitMessage)
    ensures
        unit_key(u).len() > 0,
        'A' <= unit_key(u)[0] <= 'Z',
{
    reveal_strlit("VehicleSpeed.");
    reveal_strlit("TellTaleStatus.");
    reveal_strlit("TirePressure.");
    reveal_strlit("CurrentGear");
}

/// The service bundle's topic table maps the key of every observed unit to a
/// HAR name that differs from the key: no observed unit reaches HAR under its
/// own key.
pub proof fn law_observed_units_are_renamed(u: UnitMessage)
    ensures
        lookup(insert_pairs(Seq::empty(), topic_table()), unit_key(u)) matches Some(name) && name
            != unit_key(u),
{
    law_observed_units_have_har_names(u);
    lemma_insert_pairs_value(topic_table(), unit_key(u));
    lemma_har_names_are_lower_case();
    lemma_unit_keys_are_capitalized(u);
    let j = choose|j: int|
        0 <= j < topic_table().len() && lookup(insert_pairs(Seq::empty(), topic_table()), unit_key(u))
            == Some(#[trigger] topic_table()[j].1);
    assert(topic_table()[j].1[0] != unit_key(u)[0]);
}

/// The mapper that `create_topic_map` of the service bundle makes maps the key
/// of every observed unit to a HAR name other than the key.
pub proof fn law_bundle_mapper_renames_observed_units(m: HashMapTopicMapper, u: UnitMessage)
    requires
        m.entries() == insert_pairs(Seq::empty(), topic_table()),
    ensures
        m.mapped_topic(unit_key(u)) != unit_key(u),
{
    law_observed_units_are_renamed(u);
}

} // verus!
