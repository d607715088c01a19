//! The publish requests that reach the vehicle data publisher, and their
//! conversion into the messages published on the data tunnel.

use crate::text::{decimal, i64_text};
use crate::vehicle_data::topics::{
    all_gears, all_locations, all_speed_topics, all_telltales, decoded, gear_from_number,
    location_from_number, speed_topic_from_number, telltale_from_number, Gear, Location, Telltale,
    VehicleSpeedTopic,
};
use vstd::prelude::*;

verus! {

/// A vehicle speed message.
#[derive(PartialEq, Eq, Structural, Clone, Copy, Debug)]
pub struct VehicleSpeed {
    pub speed: u32,
}

/// A telltale status message.
#[derive(PartialEq, Eq, Structural, Clone, Copy, Debug)]
pub struct TellTaleStatus {
    pub alert: bool,
}

/// A tire pressure message.
#[derive(PartialEq, Eq, Structural, Clone, Copy, Debug)]
pub struct TirePressure {
    pub pressure: u32,
}

/// A current gear message, as published on the data tunnel.
#[derive(PartialEq, Eq, Structural, Clone, Copy, Debug)]
pub struct CurrentGear {
    pub gear: Gear,
}

/// A current gear message as it arrives: the gear is a wire number, which
/// may stand for no gear.
#[derive(PartialEq, Eq, Structural, Clone, Copy, Debug)]
pub struct GearValue {
    pub gear: i32,
}

/// A request to publish a speed; `topic` is a wire number. An absent message
/// reads as its default, speed 0.
#[derive(PartialEq, Eq, Structural, Clone, Copy, Debug)]
pub struct PublishVehicleSpeedRequest {
    pub topic: i32,
    pub speed: Option<VehicleSpeed>,
}

/// A request to publish a telltale status; `topic` is a wire number. An
/// absent message reads as its default, no alert.
#[derive(PartialEq, Eq, Structural, Clone, Copy, Debug)]
pub struct PublishTelltaleStatusRequest {
    pub topic: i32,
    pub status: Option<TellTaleStatus>,
}

/// A request to publish a tire pressure; `topic` is a wire number. An absent
/// message reads as its default, pressure 0.
#[derive(PartialEq, Eq, Structural, Clone, Copy, Debug)]
pub struct PublishTirePressureRequest {
    pub topic: i32,
    pub pressure: Option<TirePressure>,
}

/// A request to publish the current gear. An absent message reads as its
/// default, gear number 0.
#[derive(PartialEq, Eq, Structural, Clone, Copy, Debug)]
pub struct PublishCurrentGearRequest {
    pub topic: i32,
    pub gear: Option<GearValue>,
}

/// Why a request was not published.
#[derive(Debug)]
pub enum Error {
    /// The request could not be read.
    Protocol(String),
    /// The request could not be delivered.
    Internal(String),
}

/// The answer to a publish request.
#[derive(PartialEq, Eq, Structural, Clone, Copy, Debug)]
pub enum PublishVehicleDataResponseStatus {
    STATUS_OK,
    STATUS_NOT_DELIVERED,
}

/// `result` is a protocol error whose text is `text`.
pub open spec fn is_protocol_error<T>(result: Result<T, Error>, text: Seq<char>) -> bool {
    match result {
        Err(Error::Protocol(s)) => s@ == text,
        _ => false,
    }
}

/// The gear number that a request carries.
pub open spec fn requested_gear(req: PublishCurrentGearRequest) -> i32 {
    match req.gear {
        Some(g) => g.gear,
        None => 0,
    }
}

/// The speed that a request carries.
pub open spec fn requested_speed(req: PublishVehicleSpeedRequest) -> u32 {
    match req.speed {
        Some(s) => s.speed,
        None => 0,
    }
}

/// The alert that a request carries.
pub open spec fn requested_alert(req: PublishTelltaleStatusRequest) -> bool {
    match req.status {
        Some(s) => s.alert,
        None => false,
    }
}

/// The pressure that a request carries.
pub open spec fn requested_pressure(req: PublishTirePressureRequest) -> u32 {
    match req.pressure {
        Some(p) => p.pressure,
        None => 0,
    }
}

/// A protocol error that names the number which was not understood.
fn protocol_error(prefix: &str, n: i32) -> (e: Error)
    ensures
        e matches Error::Protocol(s) && s@ == prefix@ + decimal(n as int),
{
    let mut s = String::from_str(prefix);
    let number = i64_text(n as i64);
    s.append(number.as_str());
    Error::Protocol(s)
}

/// Converts a gear request into the message to publish; a gear number that
/// stands for no gear is a protocol error.
pub fn current_gear_request_to_message(req: PublishCurrentGearRequest) -> (r: Result<
    CurrentGear,
    Error,
>)
    ensures
        match decoded(all_gears(), requested_gear(req)) {
            Some(g) => r matches Ok(m) && m == (CurrentGear { gear: g }),
            None => is_protocol_error(r, "Cannot map to gear "@ + decimal(requested_gear(req) as int)),
        },
{
    let n = match req.gear {
        Some(g) => g.gear,
        None => 0,
    };
    match gear_from_number(n) {
        Some(gear) => Ok(CurrentGear { gear }),
        None => Err(protocol_error("Cannot map to gear ", n)),
    }
}

/// Converts a speed request into its topic and the message to publish.
pub fn vehicle_speed_request_to_message(req: PublishVehicleSpeedRequest) -> (r: Result<
    (VehicleSpeedTopic, VehicleSpeed),
    Error,
>)
    ensures
        match decoded(all_speed_topics(), req.topic) {
            Some(t) => r matches Ok(m) && m == (t, VehicleSpeed { speed: requested_speed(req) }),
            None => is_protocol_error(
                r,
                "Cannot map to vehicle speed topic "@ + decimal(req.topic as int),
            ),
        },
{
    match speed_topic_from_number(req.topic) {
        Some(topic) => {
            let speed = match req.speed {
                Some(s) => s.speed,
                None => 0,
            };
            Ok((topic, VehicleSpeed { speed }))
        },
        None => Err(protocol_error("Cannot map to vehicle speed topic ", req.topic)),
    }
}

/// Converts a telltale request into its telltale and the message to publish.
pub fn telltale_status_request_to_message(req: PublishTelltaleStatusRequest) -> (r: Result<
    (Telltale, TellTaleStatus),
    Error,
>)
    ensures
        match decoded(all_telltales(), req.topic) {
            Some(t) => r matches Ok(m) && m == (t, TellTaleStatus { alert: requested_alert(req) }),
            None => is_protocol_error(r, "Cannot map to telltale topic "@ + decimal(req.topic as int)),
        },
{
    match telltale_from_number(req.topic) {
        Some(topic) => {
            let alert = match req.status {
                Some(s) => s.alert,
                None => false,
            };
            Ok((topic, TellTaleStatus { alert }))
        },
        None => Err(protocol_error("Cannot map to telltale topic ", req.topic)),
    }
}

/// Converts a tire pressure request into its location and the message to publish.
pub fn tire_pressure_request_to_message(req: PublishTirePressureRequest) -> (r: Result<
    (Location, TirePressure),
    Error,
>)
    ensures
        match decoded(all_locations(), req.topic) {
            Some(l) => r matches Ok(m) && m == (l, TirePressure { pressure: requested_pressure(req) }),
            None => is_protocol_error(
                r,
                "Cannot map to tire pressure topic "@ + decimal(req.topic as int),
            ),
        },
{
    match location_from_number(req.topic) {
        Some(topic) => {
            let pressure = match req.pressure {
                Some(p) => p.pressure,
                None => 0,
            };
            Ok((topic, TirePressure { pressure }))
        },
        None => Err(protocol_error("Cannot map to tire pressure topic ", req.topic)),
    }
}

/// The answer status for the outcome of a publish: delivered or not.
pub fn convert_result_to_status(status: &Result<(), String>) -> (r: PublishVehicleDataResponseStatus)
    ensures
        r == (if status is Ok {
            PublishVehicleDataResponseStatus::STATUS_OK
        } else {
            PublishVehicleDataResponseStatus::STATUS_NOT_DELIVERED
        }),
{
    match status {
        Ok(()) => PublishVehicleDataResponseStatus::STATUS_OK,
        Err(_) => PublishVehicleDataResponseStatus::STATUS_NOT_DELIVERED,
    }
}

} // verus!
