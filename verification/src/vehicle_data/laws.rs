//! Properties of the vehicle data topics, the publisher routing and the
//! playback that span functions.

use crate::vehicle_data::model::{requested_alert, requested_gear, requested_pressure};
use crate::vehicle_data::playback::{
    change_speed_steps, moving_speed_steps, script_steps, speed_at, speed_distance, speed_request, task_steps_spec,
    ChangeSpeed,
    PublishRequest, SetGear, SetTelltale, SetTirePressure, Step, Task,
};
use crate::vehicle_data::publishers::{publisher_order, variant_index, PublisherVariant};
use crate::vehicle_data::topics::{
    all_gears, all_locations, all_speed_topics, all_telltales, decoded, gear_letter, gear_position,
    location_position, speed_topic_position, telltale_position, Gear, Location, Telltale,
    VehicleSpeedTopic,
};
use vstd::prelude::*;

verus! {

/// Every topic decodes from its own wire number.
pub proof fn law_wire_numbers_round_trip(t: Telltale, s: VehicleSpeedTopic, l: Location, g: Gear)
    ensures
        decoded(all_telltales(), telltale_position(t) as i32) == Some(t),
        decoded(all_speed_topics(), speed_topic_position(s) as i32) == Some(s),
        decoded(all_locations(), location_position(l) as i32) == Some(l),
        decoded(all_gears(), gear_position(g) as i32) == Some(g),
{
}

/// What playback sends for a telltale, a tire or a gear reads back, at the
/// publisher, as the same topic and value.
pub proof fn law_played_requests_read_back(
    t: Telltale,
    alert: bool,
    l: Location,
    pressure: i32,
    g: Gear,
)
    ensures
        task_steps_spec(Task::SetTelltale(SetTelltale { topic: t, alert }))[0] matches Step::Publish(
            PublishRequest::TelltaleStatus(req),
        ) && decoded(all_telltales(), req.topic) == Some(t) && requested_alert(req) == alert,
        task_steps_spec(Task::SetTirePressure(SetTirePressure { topic: l, pressure }))[0] matches Step::Publish(
            PublishRequest::TirePressure(req),
        ) && decoded(all_locations(), req.topic) == Some(l) && requested_pressure(req)
            == pressure as u32,
        task_steps_spec(Task::SetGear(SetGear { gear: g }))[0] matches Step::Publish(
            PublishRequest::CurrentGear(req),
        ) && decoded(all_gears(), requested_gear(req)) == Some(g),
{
}

/// Changing a speed starts by publishing the speed it starts from and ends
/// by publishing the speed it goes to, each followed by a wait.
pub proof fn law_speed_change_goes_from_start_to_target(t: ChangeSpeed)
    requires
        t.from != t.to,
    ensures
        change_speed_steps(t).len() >= 2,
        change_speed_steps(t)[0] == speed_request(t.topic, t.from as int),
        change_speed_steps(t)[change_speed_steps(t).len() - 2] == speed_request(
            t.topic,
            t.to as int,
        ),
        change_speed_steps(t).last() is WaitFraction,
{
    assert(change_speed_steps(t) == moving_speed_steps(t));
    let d = speed_distance(t.from, t.to);
    let n = change_speed_steps(t).len();
    assert(n == 2 * (d + 1));
    assert((n - 2) % 2 == 0 && (n - 2) / 2 == d) by (nonlinear_arith)
        requires
            n == 2 * (d + 1),
            d >= 0,
    ;
    assert((n - 1) % 2 == 1) by (nonlinear_arith)
        requires
            n == 2 * (d + 1),
            d >= 0,
    ;
    assert(speed_at(t.from, t.to, d) == t.to);
}

/// A change from a speed to itself publishes nothing: its only step is the
/// wait divided by zero parts.
pub proof fn law_still_speed_change_publishes_nothing(t: ChangeSpeed)
    requires
        t.from == t.to,
    ensures
        change_speed_steps(t) == seq![Step::WaitFraction(t.duration, 0)],
{
}

/// Playing two scripts one after the other performs the same steps as
/// playing them joined.
pub proof fn law_playing_scripts_in_a_row(a: Seq<Task>, b: Seq<Task>)
    ensures
        script_steps(a + b) == script_steps(a) + script_steps(b),
    decreases b.len(),
{
    if b.len() == 0 {
        assert(a + b =~= a);
        assert(script_steps(a) + script_steps(b) =~= script_steps(a));
    } else {
        law_playing_scripts_in_a_row(a, b.drop_last());
        assert((a + b).drop_last() =~= a + b.drop_last());
        assert((a + b).last() == b.last());
        assert(script_steps(a) + script_steps(b.drop_last()) + task_steps_spec(b.last())
            =~= script_steps(a) + (script_steps(b.drop_last()) + task_steps_spec(b.last())));
    }
}

/// Each unit has a publisher of its own: the routing position of a unit holds
/// that unit, and no two positions hold the same unit.
pub proof fn law_each_unit_has_its_own_publisher(v: PublisherVariant)
    ensures
        publisher_order().len() == 30,
        0 <= variant_index(v) < 30,
        publisher_order()[variant_index(v)] == v,
        publisher_order().no_duplicates(),
{
    let s = publisher_order();
    assert(s.len() == 30);
    assert(s[0] == PublisherVariant::Telltale(Telltale::OIL_PRESSURE));
    assert(s[1] == PublisherVariant::Telltale(Telltale::ENGINE_TEMP));
    assert(s[2] == PublisherVariant::Telltale(Telltale::CHECK_ENGINE));
    assert(s[3] == PublisherVariant::Telltale(Telltale::CHARGING_FAILURE));
    assert(s[4] == PublisherVariant::Telltale(Telltale::SEATBELT_DRIVER));
    assert(s[5] == PublisherVariant::Telltale(Telltale::SEATBELT_PASSENGER));
    assert(s[6] == PublisherVariant::Telltale(Telltale::LOW_TIRE_PRESSURE));
    assert(s[7] == PublisherVariant::Telltale(Telltale::AIRBAG));
    assert(s[8] == PublisherVariant::Telltale(Telltale::ABS));
    assert(s[9] == PublisherVariant::Telltale(Telltale::BRAKE));
    assert(s[10] == PublisherVariant::Telltale(Telltale::TRACTION));
    assert(s[11] == PublisherVariant::Telltale(Telltale::FOG_LIGHTS));
    assert(s[12] == PublisherVariant::Telltale(Telltale::PARK_LIGHTS));
    assert(s[13] == PublisherVariant::Telltale(Telltale::HIBEAM));
    assert(s[14] == PublisherVariant::Telltale(Telltale::LOWBEAM));
    assert(s[15] == PublisherVariant::Telltale(Telltale::TURN_SIGNAL_LEFT));
    assert(s[16] == PublisherVariant::Telltale(Telltale::TURN_SIGNAL_RIGHT));
    assert(s[17] == PublisherVariant::Telltale(Telltale::ADAS));
    assert(s[18] == PublisherVariant::Telltale(Telltale::MAX_SPEED_DISPLAYED));
    assert(s[19] == PublisherVariant::Telltale(Telltale::SPEED_LIMIT_DISPLAYED));
    assert(s[20] == PublisherVariant::Telltale(Telltale::EMERGENCY_LIGHT));
    assert(s[21] == PublisherVariant::Speed(VehicleSpeedTopic::VEHICLE_SPEED));
    assert(s[22] == PublisherVariant::Speed(VehicleSpeedTopic::MAX_SPEED));
    assert(s[23] == PublisherVariant::Speed(VehicleSpeedTopic::SPEEDLIMIT));
    assert(s[24] == PublisherVariant::Tire(Location::FRONT_LEFT));
    assert(s[25] == PublisherVariant::Tire(Location::FRONT_RIGHT));
    assert(s[26] == PublisherVariant::Tire(Location::REAR_LEFT));
    assert(s[27] == PublisherVariant::Tire(Location::REAR_RIGHT));
    assert(s[28] == PublisherVariant::Tire(Location::FIFTH_WHEEL));
    assert(s[29] == PublisherVariant::Gear);
    assert forall|i: int| 0 <= i < 30 implies variant_index(#[trigger] s[i]) == i by {
    }
    assert forall|i: int, j: int| 0 <= i < s.len() && 0 <= j < s.len() && i != j implies s[i] != s[j] by {
        assert(variant_index(s[i]) == i);
        assert(variant_index(s[j]) == j);
    }
}

/// HAR learns the gear from a single letter: each gear has a letter of its
/// own, the letter at the gear's wire position in "PRND".
pub proof fn law_gear_letters_tell_gears_apart(g: Gear, h: Gear)
    ensures
        gear_letter(g).len() == 1,
        gear_letter(g) == seq!["PRND"@[gear_position(g)]],
        gear_letter(g) == gear_letter(h) ==> g == h,
{
    reveal_strlit("PRND");
    reveal_strlit("P");
    reveal_strlit("R");
    reveal_strlit("N");
    reveal_strlit("D");
    assert(gear_letter(g) =~= seq!["PRND"@[gear_position(g)]]);
    assert(gear_letter(h) =~= seq!["PRND"@[gear_position(h)]]);
    if gear_letter(g) == gear_letter(h) {
        assert(gear_letter(g)[0] == gear_letter(h)[0]);
    }
}

/// The step is a telltale request that the publisher reads back as the
/// telltale `t` with the alert `alert`.
pub open spec fn reads_back_as_telltale(step: Step, t: Telltale, alert: bool) -> bool {
    match step {
        Step::Publish(PublishRequest::TelltaleStatus(req)) => decoded(all_telltales(), req.topic)
            == Some(t) && requested_alert(req) == alert,
        _ => false,
    }
}

/// Setting all telltales publishes, for each telltale in wire-number order,
/// a request that the publisher reads back as that telltale with the
/// requested alert.
pub proof fn law_all_telltales_get_the_alert(alert: bool)
    ensures
        task_steps_spec(Task::SetAllTelltales(alert)).len() == all_telltales().len(),
        forall|i: int|
            0 <= i < all_telltales().len() ==> reads_back_as_telltale(
                #[trigger] task_steps_spec(Task::SetAllTelltales(alert))[i],
                all_telltales()[i],
                alert,
            ),
{
    assert forall|i: int| 0 <= i < all_telltales().len() implies reads_back_as_telltale(
        #[trigger] task_steps_spec(Task::SetAllTelltales(alert))[i],
        all_telltales()[i],
        alert,
    ) by {
        let t = all_telltales()[i];
        law_wire_numbers_round_trip(t, VehicleSpeedTopic::VEHICLE_SPEED, Location::FRONT_LEFT, Gear::P);
    }
}

} // verus!
