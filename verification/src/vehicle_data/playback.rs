//! Scripted vehicle data: a sequence of tasks, and the publish requests and
//! waits that playing it back performs.

use crate::vehicle_data::model::{
    GearValue, PublishCurrentGearRequest, PublishTelltaleStatusRequest,
    PublishTirePressureRequest, PublishVehicleSpeedRequest, TellTaleStatus, TirePressure,
    VehicleSpeed,
};
use crate::vehicle_data::topics::{
    all_telltales, gear_number, gear_position, location_number, location_position,
    speed_topic_number, speed_topic_position, telltale_number, telltale_position, telltale_values,
    Gear, Location, Telltale, VehicleSpeedTopic,
};
use std::time::Duration;
use vstd::prelude::*;

verus! {

/// Moves a speed from one value to another, one unit at a time, over a duration.
#[derive(Clone, Copy, Debug)]
pub struct ChangeSpeed {
    pub topic: VehicleSpeedTopic,
    pub from: i32,
    pub to: i32,
    pub duration: Duration,
}

/// Sets the alert of one telltale.
#[derive(Clone, Copy, Debug)]
pub struct SetTelltale {
    pub topic: Telltale,
    pub alert: bool,
}

/// Sets the pressure of one tire.
#[derive(Clone, Copy, Debug)]
pub struct SetTirePressure {
    pub topic: Location,
    pub pressure: i32,
}

/// Sets the gear.
#[derive(Clone, Copy, Debug)]
pub struct SetGear {
    pub gear: Gear,
}

/// One task of a script.
#[derive(Clone, Copy, Debug)]
pub enum Task {
    ChangeSpeed(ChangeSpeed),
    SetTelltale(SetTelltale),
    SetAllTelltales(bool),
    SetTirePressure(SetTirePressure),
    SetGear(SetGear),
    Delay(Duration),
}

impl Task {
    pub fn change_speed(topic: VehicleSpeedTopic, from: i32, to: i32, duration: Duration) -> (t:
        Self)
        ensures
            t == Task::ChangeSpeed(ChangeSpeed { topic, from, to, duration }),
    {
        Task::ChangeSpeed(ChangeSpeed { topic, from, to, duration })
    }

    pub fn set_telltale_alert(topic: Telltale, alert: bool) -> (t: Self)
        ensures
            t == Task::SetTelltale(SetTelltale { topic, alert }),
    {
        Task::SetTelltale(SetTelltale { topic, alert })
    }

    pub fn set_all_telltales_alert(alert: bool) -> (t: Self)
        ensures
            t == Task::SetAllTelltales(alert),
    {
        Task::SetAllTelltales(alert)
    }

    pub fn set_tire_pressure(topic: Location, pressure: i32) -> (t: Self)
        ensures
            t == Task::SetTirePressure(SetTirePressure { topic, pressure }),
    {
        Task::SetTirePressure(SetTirePressure { topic, pressure })
    }

    pub fn set_gear(gear: Gear) -> (t: Self)
        ensures
            t == Task::SetGear(SetGear { gear }),
    {
        Task::SetGear(SetGear { gear })
    }

    pub fn delay(duration: Duration) -> (t: Self)
        ensures
            t == Task::Delay(duration),
    {
        Task::Delay(duration)
    }
}

/// Builds a script task by task.
#[derive(Debug)]
pub struct StepsBuilder {
    pub steps: Vec<Task>,
}

impl StepsBuilder {
    pub fn new() -> (b: Self)
        ensures
            b.steps@ == Seq::<Task>::empty(),
    {
        StepsBuilder { steps: Vec::new() }
    }

    /// The builder with `task` added at the end.
    pub fn and_then(self, task: Task) -> (b: Self)
        ensures
            b.steps@ == self.steps@.push(task),
    {
        let mut steps = self.steps;
        steps.push(task);
        StepsBuilder { steps }
    }

    /// The tasks, in the order they were added.
    pub fn build(self) -> (v: Vec<Task>)
        ensures
            v@ == self.steps@,
    {
        self.steps
    }
}

/// A request sent to the vehicle data publisher.
#[derive(Clone, Copy, Debug)]
pub enum PublishRequest {
    VehicleSpeed(PublishVehicleSpeedRequest),
    TelltaleStatus(PublishTelltaleStatusRequest),
    TirePressure(PublishTirePressureRequest),
    CurrentGear(PublishCurrentGearRequest),
}

/// One step of playing a script back.
#[derive(Clone, Copy, Debug)]
pub enum Step {
    /// Send a request.
    Publish(PublishRequest),
    /// Wait for a duration.
    Wait(Duration),
    /// Wait for a duration divided by a number of parts.
    WaitFraction(Duration, u32),
}

/// The wire number of the current gear topic.
pub const CURRENT_GEAR_TOPIC_GEAR: i32 = 0;

/// The request that publishes a speed; the speed is sent as unsigned.
pub open spec fn speed_request(topic: VehicleSpeedTopic, speed: int) -> Step {
    Step::Publish(
        PublishRequest::VehicleSpeed(
            PublishVehicleSpeedRequest {
                topic: speed_topic_position(topic) as i32,
                speed: Some(VehicleSpeed { speed: speed as i32 as u32 }),
            },
        ),
    )
}

/// The request that publishes a telltale alert.
pub open spec fn telltale_request(topic: Telltale, alert: bool) -> Step {
    Step::Publish(
        PublishRequest::TelltaleStatus(
            PublishTelltaleStatusRequest {
                topic: telltale_position(topic) as i32,
                status: Some(TellTaleStatus { alert }),
            },
        ),
    )
}

/// The number of speed values between two speeds, both included, less one.
pub open spec fn speed_distance(from: i32, to: i32) -> int {
    if from <= to {
        to - from
    } else {
        from - to
    }
}

/// The speed at position `k` on the way from `from` to `to`.
pub open spec fn speed_at(from: i32, to: i32, k: int) -> int {
    if from <= to {
        from + k
    } else {
        from - k
    }
}

/// Changing a speed publishes every value from `from` to `to` in turn, each
/// followed by a wait of the duration divided by the distance between them.
/// The wait is worked out before anything is published; for a change from a
/// speed to itself it divides by zero parts, and that wait is the only step.
pub open spec fn change_speed_steps(t: ChangeSpeed) -> Seq<Step> {
    if t.from == t.to {
        seq![Step::WaitFraction(t.duration, 0)]
    } else {
        moving_speed_steps(t)
    }
}

/// The publishes and waits of a change between two different speeds.
pub open spec fn moving_speed_steps(t: ChangeSpeed) -> Seq<Step> {
    Seq::new(
        (2 * (speed_distance(t.from, t.to) + 1)) as nat,
        |k: int|
            if k % 2 == 0 {
                speed_request(t.topic, speed_at(t.from, t.to, k / 2))
            } else {
                Step::WaitFraction(t.duration, speed_distance(t.from, t.to) as u32)
            },
    )
}

/// The steps of one task.
pub open spec fn task_steps_spec(task: Task) -> Seq<Step> {
    match task {
        Task::ChangeSpeed(t) => change_speed_steps(t),
        Task::SetTelltale(t) => seq![telltale_request(t.topic, t.alert)],
        Task::SetAllTelltales(alert) => all_telltales().map_values(
            |t: Telltale| telltale_request(t, alert),
        ),
        Task::SetTirePressure(t) => seq![
            Step::Publish(
                PublishRequest::TirePressure(
                    PublishTirePressureRequest {
                        topic: location_position(t.topic) as i32,
                        pressure: Some(TirePressure { pressure: t.pressure as u32 }),
                    },
                ),
            ),
        ],
        Task::SetGear(t) => seq![
            Step::Publish(
                PublishRequest::CurrentGear(
                    PublishCurrentGearRequest {
                        topic: CURRENT_GEAR_TOPIC_GEAR,
                        gear: Some(GearValue { gear: gear_position(t.gear) as i32 }),
                    },
                ),
            ),
        ],
        Task::Delay(d) => seq![Step::Wait(d)],
    }
}

/// The steps of a script: the steps of each task, in order.
pub open spec fn script_steps(tasks: Seq<Task>) -> Seq<Step>
    decreases tasks.len(),
{
    if tasks.len() == 0 {
        Seq::empty()
    } else {
        script_steps(tasks.drop_last()) + task_steps_spec(tasks.last())
    }
}

/// The request that publishes a telltale alert.
fn telltale_step(topic: Telltale, alert: bool) -> (s: Step)
    ensures
        s == telltale_request(topic, alert),
{
    Step::Publish(
        PublishRequest::TelltaleStatus(
            PublishTelltaleStatusRequest {
                topic: telltale_number(topic),
                status: Some(TellTaleStatus { alert }),
            },
        ),
    )
}

/// Appends the steps of changing a speed.
fn push_change_speed_steps(out: &mut Vec<Step>, t: ChangeSpeed)
    ensures
        final(out)@ == old(out)@ + change_speed_steps(t),
{
    let up = t.from <= t.to;
    let distance: i64 = if up {
        t.to as i64 - t.from as i64
    } else {
        t.from as i64 - t.to as i64
    };
    let parts = distance as u32;
    if distance == 0 {
        out.push(Step::WaitFraction(t.duration, 0));
        return;
    }
    let topic = speed_topic_number(t.topic);
    let ghost start = out@;
    let mut k: i64 = 0;
    while k <= distance
        invariant
            0 <= k <= distance + 1,
            distance == speed_distance(t.from, t.to),
            0 <= distance <= u32::MAX,
            parts == distance as u32,
            up == (t.from <= t.to),
            topic == speed_topic_position(t.topic),
            distance > 0,
            out@ == start + moving_speed_steps(t).subrange(0, 2 * k),
        decreases distance + 1 - k,
    {
        let speed: i64 = if up {
            t.from as i64 + k
        } else {
            t.from as i64 - k
        };
        assert(speed == speed_at(t.from, t.to, k as int));
        let step = Step::Publish(
            PublishRequest::VehicleSpeed(
                PublishVehicleSpeedRequest {
                    topic,
                    speed: Some(VehicleSpeed { speed: speed as i32 as u32 }),
                },
            ),
        );
        assert(moving_speed_steps(t)[2 * k] == step);
        assert(moving_speed_steps(t)[2 * k + 1] == Step::WaitFraction(t.duration, parts));
        out.push(step);
        out.push(Step::WaitFraction(t.duration, parts));
        k = k + 1;
        assert(out@ =~= start + moving_speed_steps(t).subrange(0, 2 * k));
    }
    assert(moving_speed_steps(t).subrange(0, 2 * k) =~= moving_speed_steps(t));
}

/// Appends the steps of one task.
pub fn push_task_steps(out: &mut Vec<Step>, task: &Task)
    ensures
        final(out)@ == old(out)@ + task_steps_spec(*task),
{
    let ghost start = out@;
    match task {
        Task::ChangeSpeed(t) => {
            push_change_speed_steps(out, *t);
        },
        Task::SetTelltale(t) => {
            out.push(telltale_step(t.topic, t.alert));
            assert(out@ =~= start + task_steps_spec(*task));
        },
        Task::SetAllTelltales(alert) => {
            let topics = telltale_values();
            let mut i: usize = 0;
            while i < topics.len()
                invariant
                    i <= topics@.len(),
                    topics@ == all_telltales(),
                    out@ == start + all_telltales().map_values(
                        |t: Telltale| telltale_request(t, *alert),
                    ).subrange(0, i as int),
                decreases topics@.len() - i,
            {
                out.push(telltale_step(topics[i], *alert));
                i = i + 1;
                assert(out@ =~= start + all_telltales().map_values(
                    |t: Telltale| telltale_request(t, *alert),
                ).subrange(0, i as int));
            }
            assert(all_telltales().map_values(|t: Telltale| telltale_request(t, *alert)).subrange(
                0,
                i as int,
            ) =~= task_steps_spec(*task));
        },
        Task::SetTirePressure(t) => {
            out.push(
                Step::Publish(
                    PublishRequest::TirePressure(
                        PublishTirePressureRequest {
                            topic: location_number(t.topic),
                            pressure: Some(TirePressure { pressure: t.pressure as u32 }),
                        },
                    ),
                ),
            );
            assert(out@ =~= start + task_steps_spec(*task));
        },
        Task::SetGear(t) => {
            out.push(
                Step::Publish(
                    PublishRequest::CurrentGear(
                        PublishCurrentGearRequest {
                            topic: CURRENT_GEAR_TOPIC_GEAR,
                            gear: Some(GearValue { gear: gear_number(t.gear) }),
                        },
                    ),
                ),
            );
            assert(out@ =~= start + task_steps_spec(*task));
        },
        Task::Delay(d) => {
            out.push(Step::Wait(*d));
            assert(out@ =~= start + task_steps_spec(*task));
        },
    }
}

/// The steps that playing a script back performs, in order: each task's
/// publish requests and waits.
pub fn play_steps(steps: &Vec<Task>) -> (r: Vec<Step>)
    ensures
        r@ == script_steps(steps@),
{
    let mut out: Vec<Step> = Vec::new();
    let mut i: usize = 0;
    while i < steps.len()
        invariant
            i <= steps@.len(),
            out@ == script_steps(steps@.subrange(0, i as int)),
        decreases steps@.len() - i,
    {
        proof {
            assert(steps@.subrange(0, i + 1).drop_last() =~= steps@.subrange(0, i as int));
        }
        push_task_steps(&mut out, &steps[i]);
        i = i + 1;
    }
    assert(steps@.subrange(0, i as int) =~= steps@);
    out
}

} // verus!
