//! Which data tunnel publisher carries which vehicle data topic.

use crate::vehicle_data::topics::{
    all_locations, all_speed_topics, all_telltales, telltale_number, telltale_position, Location, Telltale,
    VehicleSpeedTopic,
};
use vstd::prelude::*;

verus! {

/// A publisher unit of the data tunnel: one per telltale, per speed topic,
/// per tire, and one for the gear.
#[derive(PartialEq, Eq, Structural, Clone, Copy, Debug)]
pub enum PublisherVariant {
    Telltale(Telltale),
    Speed(VehicleSpeedTopic),
    Tire(Location),
    Gear,
}

/// The number of publisher units.
pub const PUBLISHER_COUNT: usize = 30;

/// The publisher units in the order in which they are taken: the telltales,
/// the speed topics, the tires, then the gear.
pub open spec fn publisher_order() -> Seq<PublisherVariant> {
    all_telltales().map_values(|t: Telltale| PublisherVariant::Telltale(t))
        + all_speed_topics().map_values(|s: VehicleSpeedTopic| PublisherVariant::Speed(s))
        + all_locations().map_values(|l: Location| PublisherVariant::Tire(l))
        + seq![PublisherVariant::Gear]
}

/// The position of a unit in `publisher_order()`.
pub open spec fn variant_index(v: PublisherVariant) -> int {
    match v {
        PublisherVariant::Telltale(t) => telltale_position(t),
        PublisherVariant::Speed(s) => match s {
            VehicleSpeedTopic::VEHICLE_SPEED => 21,
            VehicleSpeedTopic::MAX_SPEED => 22,
            VehicleSpeedTopic::SPEEDLIMIT => 23,
        },
        PublisherVariant::Tire(l) => match l {
            Location::FRONT_LEFT => 24,
            Location::FRONT_RIGHT => 25,
            Location::REAR_LEFT => 26,
            Location::REAR_RIGHT => 27,
            Location::FIFTH_WHEEL => 28,
        },
        PublisherVariant::Gear => 29,
    }
}

/// The position of a unit in `publisher_order()`.
pub fn variant_index_of(v: PublisherVariant) -> (i: usize)
    ensures
        i == variant_index(v),
        i < PUBLISHER_COUNT,
        publisher_order().len() == PUBLISHER_COUNT,
        publisher_order()[i as int] == v,
{
    proof {
        assert(publisher_order().len() == 30);
    }
    match v {
        PublisherVariant::Telltale(t) => {
            let n = telltale_number(t);
            assert(publisher_order()[n as int] == v);
            n as usize
        },
        PublisherVariant::Speed(s) => match s {
            VehicleSpeedTopic::VEHICLE_SPEED => 21,
            VehicleSpeedTopic::MAX_SPEED => 22,
            VehicleSpeedTopic::SPEEDLIMIT => 23,
        },
        PublisherVariant::Tire(l) => match l {
            Location::FRONT_LEFT => 24,
            Location::FRONT_RIGHT => 25,
            Location::REAR_LEFT => 26,
            Location::REAR_RIGHT => 27,
            Location::FIFTH_WHEEL => 28,
        },
        PublisherVariant::Gear => 29,
    }
}

/// The publisher units in the order in which they are taken.
pub fn publisher_variants() -> (v: Vec<PublisherVariant>)
    ensures
        v@ == publisher_order(),
{
    let mut v: Vec<PublisherVariant> = Vec::new();
    let mut i: usize = 0;
    while i < PUBLISHER_COUNT
        invariant
            i <= PUBLISHER_COUNT,
            publisher_order().len() == PUBLISHER_COUNT,
            v@ == publisher_order().subrange(0, i as int),
        decreases PUBLISHER_COUNT - i,
    {
        let u = variant_at(i);
        v.push(u);
        i = i + 1;
        assert(v@ =~= publisher_order().subrange(0, i as int));
    }
    assert(v@ =~= publisher_order());
    v
}

/// The unit at position `i` of `publisher_order()`.
fn variant_at(i: usize) -> (u: PublisherVariant)
    requires
        i < PUBLISHER_COUNT,
    ensures
        publisher_order().len() == PUBLISHER_COUNT,
        u == publisher_order()[i as int],
{
    proof {
        assert(publisher_order().len() == 30);
    }
    if i < 21 {
        let t = crate::vehicle_data::topics::telltale_from_number(i as i32);
        PublisherVariant::Telltale(t.unwrap())
    } else if i == 21 {
        PublisherVariant::Speed(VehicleSpeedTopic::VEHICLE_SPEED)
    } else if i == 22 {
        PublisherVariant::Speed(VehicleSpeedTopic::MAX_SPEED)
    } else if i == 23 {
        PublisherVariant::Speed(VehicleSpeedTopic::SPEEDLIMIT)
    } else if i == 24 {
        PublisherVariant::Tire(Location::FRONT_LEFT)
    } else if i == 25 {
        PublisherVariant::Tire(Location::FRONT_RIGHT)
    } else if i == 26 {
        PublisherVariant::Tire(Location::REAR_LEFT)
    } else if i == 27 {
        PublisherVariant::Tire(Location::REAR_RIGHT)
    } else if i == 28 {
        PublisherVariant::Tire(Location::FIFTH_WHEEL)
    } else {
        PublisherVariant::Gear
    }
}

/// The publishers of the vehicle data publisher, one per unit: a message for
/// a topic goes to the publisher of its unit.
pub struct HarryVehicleDataPublishers<P> {
    publishers: Vec<P>,
}

impl<P> HarryVehicleDataPublishers<P> {
    #[verifier::type_invariant]
    spec fn one_per_unit(&self) -> bool {
        self.publishers.len() == PUBLISHER_COUNT
    }

    /// The publishers, in `publisher_order()`.
    pub closed spec fn publishers(&self) -> Seq<P> {
        self.publishers@
    }

    /// Holds the publishers taken in `publisher_order()`; there must be one per unit.
    pub fn new(publishers: Vec<P>) -> (r: Option<Self>)
        ensures
            r is Some <==> publishers.len() == PUBLISHER_COUNT,
            r matches Some(s) ==> s.publishers() == publishers@,
    {
        if publishers.len() == PUBLISHER_COUNT {
            Some(HarryVehicleDataPublishers { publishers })
        } else {
            None
        }
    }

    /// The publisher of a unit.
    pub fn publisher(&self, v: PublisherVariant) -> (p: &P)
        ensures
            *p == self.publishers()[variant_index(v)],
            publisher_order()[variant_index(v)] == v,
    {
        proof {
            use_type_invariant(self);
        }
        let i = variant_index_of(v);
        &self.publishers[i]
    }

    /// The publisher for a speed topic.
    pub fn vehicle_speed_publisher(&self, topic: VehicleSpeedTopic) -> (p: &P)
        ensures
            *p == self.publishers()[variant_index(PublisherVariant::Speed(topic))],
    {
        self.publisher(PublisherVariant::Speed(topic))
    }

    /// The publisher for a telltale.
    pub fn tell_tale_status_publisher(&self, telltale: Telltale) -> (p: &P)
        ensures
            *p == self.publishers()[variant_index(PublisherVariant::Telltale(telltale))],
    {
        self.publisher(PublisherVariant::Telltale(telltale))
    }

    /// The publisher for a tire.
    pub fn tire_pressure_publisher(&self, location: Location) -> (p: &P)
        ensures
            *p == self.publishers()[variant_index(PublisherVariant::Tire(location))],
    {
        self.publisher(PublisherVariant::Tire(location))
    }

    /// The publisher for the gear.
    pub fn current_gear_publisher(&self) -> (p: &P)
        ensures
            *p == self.publishers()[variant_index(PublisherVariant::Gear)],
    {
        self.publisher(PublisherVariant::Gear)
    }
}

} // verus!
