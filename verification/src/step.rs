use vstd::prelude::*;

use crate::input::{spec_dir_x, spec_dir_y, spec_moving, Direction, FrameInput};
use crate::state::{ActorMotionController, SprintState, BASE_SPEED, SPRINT_SPEED};

verus! {

/// A frame's displacement before floating-point scaling: the raw direction
/// and the displacement magnitude in milli-units (speed times elapsed
/// milliseconds). The caller normalizes the direction to unit length and
/// scales it by `magnitude_milli / 1000`; a zero direction means no movement
/// and comes with a zero magnitude.
#[derive(Clone, Copy, Debug, PartialEq, Eq, Structural)]
pub struct PositionDelta {
    pub dir: Direction,
    pub magnitude_milli: u64,
}

/// The controller after one frame with input `inp` and `elapsed_ms` of
/// elapsed time, per the state table: while idle, a held sprint key starts a
/// sprint, otherwise stamina below capacity regenerates; while sprinting,
/// empty stamina forces exhaustion, a release of the sprint key returns to
/// idle, and otherwise movement drains stamina; while exhausted, the
/// cooldown counts down and expiry returns to idle.
pub open spec fn spec_step_state(
    s: ActorMotionController,
    inp: FrameInput,
    elapsed_ms: u32,
) -> ActorMotionController {
    match s.sprint_state {
        SprintState::Idle => {
            if inp.sprint_held {
                s.spec_start_sprinting()
            } else if s.stamina.current < s.stamina.max {
                ActorMotionController { stamina: s.stamina.spec_regen(elapsed_ms), ..s }
            } else {
                s
            }
        },
        SprintState::Sprinting => {
            if s.stamina.current == 0 {
                s.spec_begin_exhaustion()
            } else if inp.sprint_released {
                s.spec_stop_sprinting()
            } else if spec_moving(inp) {
                ActorMotionController { stamina: s.stamina.spec_deplete(elapsed_ms), ..s }
            } else {
                s
            }
        },
        SprintState::Exhausted => s.spec_tick_exhaustion(elapsed_ms),
    }
}

impl ActorMotionController {
    /// Runs one frame: updates the sprint state and stamina from the input
    /// and the elapsed time, and returns the frame's displacement, whose
    /// magnitude uses the speed in effect after this frame's transitions.
    pub fn step(&mut self, inp: &FrameInput, elapsed_ms: u32) -> (delta: PositionDelta)
        requires
            old(self).wf(),
        ensures
            final(self).wf(),
            *final(self) == spec_step_state(*old(self), *inp, elapsed_ms),
            delta.dir.x == spec_dir_x(*inp),
            delta.dir.y == spec_dir_y(*inp),
            spec_moving(*inp) ==> delta.magnitude_milli == final(self).movement_speed * elapsed_ms,
            !spec_moving(*inp) ==> delta.magnitude_milli == 0,
    {
        let dir = inp.direction();
        let moving = !dir.is_zero();
        match self.sprint_state {
            SprintState::Idle => {
                if inp.sprint_held {
                    self.start_sprinting();
                } else if self.stamina.current < self.stamina.max {
                    self.stamina.regen(elapsed_ms);
                }
            },
            SprintState::Sprinting => {
                if self.stamina.current == 0 {
                    self.begin_exhaustion();
                } else if inp.sprint_released {
                    self.stop_sprinting();
                } else if moving {
                    self.stamina.deplete(elapsed_ms);
                }
            },
            SprintState::Exhausted => {
                self.tick_exhaustion(elapsed_ms);
            },
        }
        proof {
            assert(self.movement_speed == BASE_SPEED || self.movement_speed == SPRINT_SPEED);
        }
        let magnitude_milli: u64 = if moving {
            (self.movement_speed as u64) * (elapsed_ms as u64)
        } else {
            0u64
        };
        PositionDelta { dir, magnitude_milli }
    }
}

} // verus!
