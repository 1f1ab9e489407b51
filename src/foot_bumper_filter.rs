//! Turns raw foot-bumper bits into obstacle reports.
//!
//! Each side debounces its bumpers by counting fresh press edges within an
//! acceptance window, and watches a record of its recent press states to take
//! itself out of use while it looks stuck. Times are in nanoseconds of the
//! cycle clock, which the caller keeps monotonic. The obstacle points are
//! computed by the caller from the obstacle distance and the sensor angle.
use vstd::prelude::*;
use crate::detection_buffer::{count_true, pushed_out, DetectionBuffer};

verus! {

/// Whether the robot stands; only an upright robot reports obstacles.
#[derive(Clone, Copy, Debug, PartialEq, Eq, Structural)]
pub enum FallState {
    Upright,
    Falling,
    Fallen,
    StandingUp,
}

/// The four touch sensors at the front of the feet.
#[derive(Clone, Copy, Debug)]
pub struct TouchSensors {
    pub left_foot_left: bool,
    pub left_foot_right: bool,
    pub right_foot_left: bool,
    pub right_foot_right: bool,
}

/// What one cycle gets: its tunables, the cycle time and the sensor input,
/// and whether the caller wants the diagnostic values.
#[derive(Clone, Copy, Debug)]
pub struct CycleContext {
    pub acceptance_duration: u64,
    pub activations_needed: i32,
    pub enabled: bool,
    pub number_of_detections_in_buffer_for_defective_declaration: usize,
    pub number_of_detections_in_buffer_to_reset_in_use: usize,
    pub cycle_time: u64,
    pub fall_state: FallState,
    pub touch_sensors: TouchSensors,
    pub foot_bumper_values_requested: bool,
}

#[derive(Clone, Copy, Debug)]
pub struct FootBumperObstacle<P> {
    pub position_in_robot: P,
}

/// Diagnostic values of one cycle.
#[derive(Clone, Copy, Debug, PartialEq, Eq, Structural)]
pub struct FootBumperValues {
    pub left_foot_bumper_count: i32,
    pub right_foot_bumper_count: i32,
    pub obstacle_deteced_on_left: bool,
    pub obstacle_deteced_on_right: bool,
}

pub struct MainOutputs<P> {
    pub foot_bumper_obstacle: Vec<FootBumperObstacle<P>>,
    pub foot_bumper_values: Option<FootBumperValues>,
}

/// The state of one side, as seen by contracts.
pub struct SideModel {
    pub pressed_last_cycle: bool,
    pub count: int,
    pub last_time: Option<u64>,
    pub in_use: bool,
    pub buffer: Seq<bool>,
}

impl SideModel {
    /// A fresh press edge counts and stamps the time; a released bumper
    /// clears the pressed flag and nothing else.
    pub open spec fn touched(self, pressed: bool, now: u64) -> SideModel {
        if pressed && !self.pressed_last_cycle {
            SideModel {
                pressed_last_cycle: true,
                count: self.count + 1,
                last_time: Some(now),
                in_use: self.in_use,
                buffer: self.buffer,
            }
        } else if !pressed {
            SideModel {
                pressed_last_cycle: false,
                count: self.count,
                last_time: self.last_time,
                in_use: self.in_use,
                buffer: self.buffer,
            }
        } else {
            self
        }
    }

    /// A side whose last activation lies more than `acceptance` in the past
    /// goes back to neutral.
    pub open spec fn decayed(self, now: u64, acceptance: u64) -> SideModel {
        if self.last_time is Some && now - self.last_time->0 > acceptance {
            SideModel {
                pressed_last_cycle: false,
                count: 0,
                last_time: None,
                in_use: self.in_use,
                buffer: self.buffer,
            }
        } else {
            self
        }
    }

    /// The pressed flag enters the record of recent cycles.
    pub open spec fn recorded(self) -> SideModel {
        SideModel {
            pressed_last_cycle: self.pressed_last_cycle,
            count: self.count,
            last_time: self.last_time,
            in_use: self.in_use,
            buffer: pushed_out(self.buffer, self.pressed_last_cycle),
        }
    }

    /// Whether the side is in use after a health check: taken out at
    /// `defective` recorded presses or more, and put back, when out of use, at
    /// `reset` or fewer.
    pub open spec fn healthy(self, defective: usize, reset: usize) -> bool {
        let n = count_true(self.buffer);
        let kept = self.in_use && n < defective;
        kept || n <= reset
    }

    pub open spec fn checked(self, defective: usize, reset: usize) -> SideModel {
        SideModel {
            pressed_last_cycle: self.pressed_last_cycle,
            count: self.count,
            last_time: self.last_time,
            in_use: self.healthy(defective, reset),
            buffer: self.buffer,
        }
    }

    /// The side after one enabled cycle.
    pub open spec fn stepped(self, pressed: bool, context: CycleContext) -> SideModel {
        self.touched(pressed, context.cycle_time).decayed(
            context.cycle_time,
            context.acceptance_duration,
        ).recorded().checked(
            context.number_of_detections_in_buffer_for_defective_declaration,
            context.number_of_detections_in_buffer_to_reset_in_use,
        )
    }

    /// What a cycle at `now` needs of the side: a count that can grow and a
    /// last activation that is not in the future.
    pub open spec fn ready_for(self, now: u64) -> bool {
        &&& self.count < i32::MAX
        &&& self.last_time is Some ==> self.last_time->0 <= now
    }
}

/// The obstacle that the detections and the health of both sides give.
pub open spec fn resolved<P>(
    fall_state: FallState,
    left_detected: bool,
    right_detected: bool,
    left_in_use: bool,
    right_in_use: bool,
    left_point: P,
    right_point: P,
    middle_point: P,
) -> Option<P> {
    if fall_state != FallState::Upright {
        None
    } else if left_detected && right_detected && left_in_use && right_in_use {
        Some(middle_point)
    } else if left_detected && !right_detected && left_in_use {
        Some(left_point)
    } else if !left_detected && right_detected && right_in_use {
        Some(right_point)
    } else {
        None
    }
}

/// The health of a side has hysteresis: a record holding at least `defective`
/// presses takes it out of use, one holding at most `reset` presses puts it
/// back in use, and in between it stays as it was.
pub proof fn lemma_health_hysteresis(m: SideModel, defective: usize, reset: usize)
    requires
        reset < defective,
    ensures
        count_true(m.buffer) >= defective ==> !m.healthy(defective, reset),
        count_true(m.buffer) <= reset ==> m.healthy(defective, reset),
        reset < count_true(m.buffer) < defective ==> m.healthy(defective, reset) == m.in_use,
{
}

/// Only a fresh press edge raises a side's count, and by one: a bumper held
/// down or released leaves the count as it was or lets it decay. One press,
/// however many cycles it lasts, is one activation.
pub proof fn lemma_press_counts_once(m: SideModel, pressed: bool, context: CycleContext)
    requires
        m.count >= 0,
    ensures
        m.pressed_last_cycle || !pressed ==> m.stepped(pressed, context).count <= m.count,
        m.stepped(pressed, context).count <= m.count + 1,
        m.stepped(pressed, context).count >= 0,
{
}

/// The debounce and health state of one side.
pub struct BumperSide {
    pressed_last_cycle: bool,
    count: i32,
    last_time: Option<u64>,
    in_use: bool,
    buffer: DetectionBuffer,
}

impl View for BumperSide {
    type V = SideModel;

    closed spec fn view(&self) -> SideModel {
        SideModel {
            pressed_last_cycle: self.pressed_last_cycle,
            count: self.count as int,
            last_time: self.last_time,
            in_use: self.in_use,
            buffer: self.buffer@,
        }
    }
}

impl BumperSide {
    pub closed spec fn wf(&self) -> bool {
        self.buffer.wf() && self.count >= 0
    }

    fn new(buffer_size: usize) -> (r: BumperSide)
        ensures
            r.wf(),
            r@ == (SideModel {
                pressed_last_cycle: false,
                count: 0,
                last_time: None,
                in_use: true,
                buffer: Seq::new(buffer_size as nat, |i: int| false),
            }),
    {
        BumperSide {
            pressed_last_cycle: false,
            count: 0,
            last_time: None,
            in_use: true,
            buffer: DetectionBuffer::new(buffer_size),
        }
    }

    /// Counts a fresh press edge, then lets a stale activation decay, then
    /// records the pressed flag.
    fn debounce(&mut self, pressed: bool, now: u64, acceptance_duration: u64)
        requires
            old(self).wf(),
            old(self)@.ready_for(now),
        ensures
            final(self).wf(),
            final(self)@ == old(self)@.touched(pressed, now).decayed(now, acceptance_duration).recorded(),
    {
        if pressed {
            if !self.pressed_last_cycle {
                self.count = self.count + 1;
                self.pressed_last_cycle = true;
                self.last_time = Some(now);
            }
        } else {
            self.pressed_last_cycle = false;
        }
        if let Some(last_time) = self.last_time {
            if now - last_time > acceptance_duration {
                self.last_time = None;
                self.count = 0;
                self.pressed_last_cycle = false;
            }
        }
        self.buffer.push(self.pressed_last_cycle);
    }

    /// Takes the side out of use while its record looks stuck and puts it back
    /// once the record has calmed down.
    fn check_for_bumper_errors(&mut self, defective: usize, reset: usize)
        requires
            old(self).wf(),
        ensures
            final(self).wf(),
            final(self)@ == old(self)@.checked(defective, reset),
    {
        let count = self.buffer.count_true();
        if count >= defective {
            self.in_use = false;
        }
        if !self.in_use && count <= reset {
            self.in_use = true;
        }
    }
}

/// The debounce and fault filter over both feet's bumpers.
pub struct FootBumperFilter<P> {
    left_point: P,
    right_point: P,
    middle_point: P,
    left: BumperSide,
    right: BumperSide,
}

impl<P: Copy> FootBumperFilter<P> {
    pub closed spec fn wf(&self) -> bool {
        self.left.wf() && self.right.wf()
    }

    pub closed spec fn left_side(&self) -> SideModel {
        self.left@
    }

    pub closed spec fn right_side(&self) -> SideModel {
        self.right@
    }

    pub closed spec fn points(&self) -> (P, P, P) {
        (self.left_point, self.right_point, self.middle_point)
    }

    /// A filter with both sides neutral and in use, each with a record of
    /// `buffer_size` unpressed cycles, reporting obstacles at the given points.
    pub fn new(buffer_size: usize, left_point: P, right_point: P, middle_point: P) -> (r: Self)
        ensures
            r.wf(),
            r.points() == (left_point, right_point, middle_point),
            r.left_side() == (SideModel {
                pressed_last_cycle: false,
                count: 0,
                last_time: None,
                in_use: true,
                buffer: Seq::new(buffer_size as nat, |i: int| false),
            }),
            r.right_side() == r.left_side(),
    {
        FootBumperFilter {
            left_point,
            right_point,
            middle_point,
            left: BumperSide::new(buffer_size),
            right: BumperSide::new(buffer_size),
        }
    }

    /// One cycle of the filter. Disabled, it leaves every state as it is and
    /// reports nothing. Enabled, it steps both sides and reports at most one
    /// obstacle, and the diagnostic values where they were requested.
    pub fn cycle(&mut self, context: CycleContext) -> (r: MainOutputs<P>)
        requires
            old(self).wf(),
            context.enabled ==> old(self).left_side().ready_for(context.cycle_time),
            context.enabled ==> old(self).right_side().ready_for(context.cycle_time),
        ensures
            final(self).wf(),
            !context.enabled ==> *final(self) == *old(self),
            !context.enabled ==> r.foot_bumper_obstacle@.len() == 0,
            !context.enabled ==> r.foot_bumper_values is None,
            context.enabled ==> Self::cycled(*old(self), *final(self), context, r),
            context.fall_state != FallState::Upright ==> r.foot_bumper_obstacle@.len() == 0,
    {
        if !context.enabled {
            return MainOutputs { foot_bumper_obstacle: Vec::new(), foot_bumper_values: None };
        }
        let now = context.cycle_time;
        let sensors = context.touch_sensors;
        self.left.debounce(
            sensors.left_foot_left || sensors.left_foot_right,
            now,
            context.acceptance_duration,
        );
        self.right.debounce(
            sensors.right_foot_left || sensors.right_foot_right,
            now,
            context.acceptance_duration,
        );
        let obstacle_detected_on_left = self.left.count >= context.activations_needed;
        let obstacle_detected_on_right = self.right.count >= context.activations_needed;
        self.left.check_for_bumper_errors(
            context.number_of_detections_in_buffer_for_defective_declaration,
            context.number_of_detections_in_buffer_to_reset_in_use,
        );
        self.right.check_for_bumper_errors(
            context.number_of_detections_in_buffer_for_defective_declaration,
            context.number_of_detections_in_buffer_to_reset_in_use,
        );
        let position = match context.fall_state {
            FallState::Upright => {
                if obstacle_detected_on_left && obstacle_detected_on_right && self.left.in_use
                    && self.right.in_use {
                    Some(self.middle_point)
                } else if obstacle_detected_on_left && !obstacle_detected_on_right
                    && self.left.in_use {
                    Some(self.left_point)
                } else if !obstacle_detected_on_left && obstacle_detected_on_right
                    && self.right.in_use {
                    Some(self.right_point)
                } else {
                    None
                }
            },
            _ => None,
        };
        let mut foot_bumper_obstacle: Vec<FootBumperObstacle<P>> = Vec::new();
        if let Some(position_in_robot) = position {
            foot_bumper_obstacle.push(FootBumperObstacle { position_in_robot });
        }
        let foot_bumper_values = if context.foot_bumper_values_requested {
            Some(
                FootBumperValues {
                    left_foot_bumper_count: self.left.count,
                    right_foot_bumper_count: self.right.count,
                    obstacle_deteced_on_left: obstacle_detected_on_left,
                    obstacle_deteced_on_right: obstacle_detected_on_right,
                },
            )
        } else {
            None
        };
        MainOutputs { foot_bumper_obstacle, foot_bumper_values }
    }

    /// `after` and `r` are what an enabled cycle makes of `before`: both sides
    /// stepped, a side detecting an obstacle once its count reaches
    /// `activations_needed`, and the reported obstacle resolved from the
    /// detections and the health of both sides.
    pub open spec fn cycled(before: Self, after: Self, context: CycleContext, r: MainOutputs<P>) -> bool {
        let s = context.touch_sensors;
        let left = before.left_side().stepped(s.left_foot_left || s.left_foot_right, context);
        let right = before.right_side().stepped(s.right_foot_left || s.right_foot_right, context);
        let left_detected = left.count >= context.activations_needed;
        let right_detected = right.count >= context.activations_needed;
        let (lp, rp, mp) = before.points();
        let obstacle = resolved(
            context.fall_state,
            left_detected,
            right_detected,
            left.in_use,
            right.in_use,
            lp,
            rp,
            mp,
        );
        &&& after.left_side() == left
        &&& after.right_side() == right
        &&& after.points() == before.points()
        &&& obstacle is None ==> r.foot_bumper_obstacle@.len() == 0
        &&& obstacle is Some ==> r.foot_bumper_obstacle@ == seq![
            FootBumperObstacle { position_in_robot: obstacle->0 },
        ]
        &&& r.foot_bumper_values == if context.foot_bumper_values_requested {
            Some(
                FootBumperValues {
                    left_foot_bumper_count: left.count as i32,
                    right_foot_bumper_count: right.count as i32,
                    obstacle_deteced_on_left: left_detected,
                    obstacle_deteced_on_right: right_detected,
                },
            )
        } else {
            None
        }
    }

    /// The activation count of the left side.
    pub fn left_count(&self) -> (r: i32)
        ensures
            r == self.left_side().count,
    {
        self.left.count
    }

    /// The activation count of the right side.
    pub fn right_count(&self) -> (r: i32)
        ensures
            r == self.right_side().count,
    {
        self.right.count
    }

    /// The time of the left side's last counted activation, if it is recent.
    pub fn last_left_time(&self) -> (r: Option<u64>)
        ensures
            r == self.left_side().last_time,
    {
        self.left.last_time
    }

    /// The time of the right side's last counted activation, if it is recent.
    pub fn last_right_time(&self) -> (r: Option<u64>)
        ensures
            r == self.right_side().last_time,
    {
        self.right.last_time
    }

    pub fn left_in_use(&self) -> (r: bool)
        ensures
            r == self.left_side().in_use,
    {
        self.left.in_use
    }

    pub fn right_in_use(&self) -> (r: bool)
        ensures
            r == self.right_side().in_use,
    {
        self.right.in_use
    }
}

} // verus!
