use vstd::prelude::*;

verus! {

/// Base movement speed, in distance units per second.
pub const BASE_SPEED: u32 = 200;

/// Movement speed while sprinting, in distance units per second.
pub const SPRINT_SPEED: u32 = 300;

/// Maximum stamina, in milliseconds of sprint capacity.
pub const MAX_STAMINA_MS: u32 = 2000;

/// Stamina regained per second while idle, in stamina milliseconds.
pub const STAMINA_REGEN_PER_SEC: u32 = 500;

/// Length of the exhaustion cooldown, in milliseconds.
pub const EXHAUSTION_MS: u32 = 1000;

/// Milliseconds in one second.
pub const MS_PER_SEC: u32 = 1000;

/// The actor's sprint state: exactly one of these holds at any instant.
#[derive(Clone, Copy, Debug, PartialEq, Eq, Structural)]
pub enum SprintState {
    Idle,
    Sprinting,
    Exhausted,
}

/// The actor's stamina pool: `current` stays within `0 ..= max`, and `max`
/// is constant for the actor's lifetime.
#[derive(Clone, Copy, Debug, PartialEq, Eq, Structural)]
pub struct Stamina {
    pub current: u32,
    pub max: u32,
}

/// Stamina milliseconds regained over `elapsed_ms` of idle time.
pub open spec fn spec_regen_gain(elapsed_ms: u32) -> int {
    (STAMINA_REGEN_PER_SEC * elapsed_ms) as int / (MS_PER_SEC as int)
}

impl Stamina {
    /// The pool never holds more than its capacity.
    pub open spec fn wf(self) -> bool {
        self.current <= self.max
    }

    /// A full pool of the build-time capacity.
    pub open spec fn spec_full() -> Stamina {
        Stamina { current: MAX_STAMINA_MS, max: MAX_STAMINA_MS }
    }

    /// The pool after draining one stamina millisecond per elapsed
    /// millisecond, saturating at zero.
    pub open spec fn spec_deplete(self, elapsed_ms: u32) -> Stamina {
        Stamina {
            current: if self.current <= elapsed_ms {
                0u32
            } else {
                (self.current - elapsed_ms) as u32
            },
            ..self
        }
    }

    /// The pool after regenerating for `elapsed_ms`, clamped at capacity.
    pub open spec fn spec_regen(self, elapsed_ms: u32) -> Stamina {
        Stamina {
            current: if self.current + spec_regen_gain(elapsed_ms) >= self.max {
                self.max
            } else {
                (self.current + spec_regen_gain(elapsed_ms)) as u32
            },
            ..self
        }
    }

    /// Builds a full pool.
    pub fn full() -> (s: Stamina)
        ensures
            s == Stamina::spec_full(),
            s.wf(),
    {
        Stamina { current: MAX_STAMINA_MS, max: MAX_STAMINA_MS }
    }

    /// Drains one stamina millisecond per elapsed millisecond, never below
    /// zero.
    pub fn deplete(&mut self, elapsed_ms: u32)
        ensures
            *final(self) == old(self).spec_deplete(elapsed_ms),
    {
        if self.current <= elapsed_ms {
            self.current = 0;
        } else {
            self.current = self.current - elapsed_ms;
        }
    }

    /// Regains stamina at the idle regeneration rate, never above capacity.
    pub fn regen(&mut self, elapsed_ms: u32)
        ensures
            *final(self) == old(self).spec_regen(elapsed_ms),
    {
        proof {
            assert((STAMINA_REGEN_PER_SEC as u64) * (elapsed_ms as u64) <= 500u64 * (u32::MAX as u64))
                by (nonlinear_arith)
                requires
                    STAMINA_REGEN_PER_SEC == 500,
                    elapsed_ms <= u32::MAX,
            ;
        }
        let gain: u64 = (STAMINA_REGEN_PER_SEC as u64) * (elapsed_ms as u64) / (MS_PER_SEC as u64);
        let total: u64 = (self.current as u64) + gain;
        if total >= self.max as u64 {
            self.current = self.max;
        } else {
            self.current = total as u32;
        }
    }
}

impl Default for Stamina {
    /// A fresh pool starts full.
    fn default() -> (s: Stamina)
        ensures
            s == Stamina::spec_full(),
    {
        Stamina::full()
    }
}

/// The actor's motion state: sprint state, the speed derived from it, the
/// stamina pool, and the exhaustion cooldown remaining while exhausted.
#[derive(Clone, Copy, Debug, PartialEq, Eq)]
pub struct ActorMotionController {
    pub sprint_state: SprintState,
    pub movement_speed: u32,
    pub stamina: Stamina,
    pub exhaustion_timer_ms: Option<u32>,
}

impl ActorMotionController {
    /// Well-formedness: stamina within bounds at the build-time capacity,
    /// speed a pure function of the sprint state, and the exhaustion timer
    /// present, positive and within the cooldown length exactly while
    /// exhausted.
    pub open spec fn wf(self) -> bool {
        &&& self.stamina.wf()
        &&& self.stamina.max == MAX_STAMINA_MS
        &&& (self.sprint_state == SprintState::Sprinting ==> self.movement_speed == SPRINT_SPEED)
        &&& (self.sprint_state != SprintState::Sprinting ==> self.movement_speed == BASE_SPEED)
        &&& (self.sprint_state == SprintState::Exhausted <==> self.exhaustion_timer_ms is Some)
        &&& (self.exhaustion_timer_ms is Some ==> 0 < self.exhaustion_timer_ms.unwrap() <= EXHAUSTION_MS)
    }

    /// The state the actor starts in: idle, base speed, full stamina, no
    /// cooldown.
    pub open spec fn spec_initial() -> ActorMotionController {
        ActorMotionController {
            sprint_state: SprintState::Idle,
            movement_speed: BASE_SPEED,
            stamina: Stamina::spec_full(),
            exhaustion_timer_ms: None,
        }
    }

    /// Builds the starting state.
    pub fn new() -> (c: ActorMotionController)
        ensures
            c == ActorMotionController::spec_initial(),
            c.wf(),
    {
        ActorMotionController {
            sprint_state: SprintState::Idle,
            movement_speed: BASE_SPEED,
            stamina: Stamina::full(),
            exhaustion_timer_ms: None,
        }
    }

    /// The controller after sprinting begins: only the sprint state and the
    /// speed change.
    pub open spec fn spec_start_sprinting(self) -> ActorMotionController {
        ActorMotionController {
            sprint_state: SprintState::Sprinting,
            movement_speed: SPRINT_SPEED,
            ..self
        }
    }

    /// Enters the sprinting state and switches to the sprint speed.
    pub fn start_sprinting(&mut self)
        ensures
            *final(self) == old(self).spec_start_sprinting(),
    {
        self.sprint_state = SprintState::Sprinting;
        self.movement_speed = SPRINT_SPEED;
    }

    /// The controller after sprinting ends without exhaustion: back to idle
    /// at the base speed.
    pub open spec fn spec_stop_sprinting(self) -> ActorMotionController {
        ActorMotionController {
            sprint_state: SprintState::Idle,
            movement_speed: BASE_SPEED,
            ..self
        }
    }

    /// Leaves the sprinting state and switches back to the base speed.
    pub fn stop_sprinting(&mut self)
        ensures
            *final(self) == old(self).spec_stop_sprinting(),
    {
        self.sprint_state = SprintState::Idle;
        self.movement_speed = BASE_SPEED;
    }

    /// The controller after exhaustion sets in: base speed and a fresh
    /// cooldown timer.
    pub open spec fn spec_begin_exhaustion(self) -> ActorMotionController {
        ActorMotionController {
            sprint_state: SprintState::Exhausted,
            movement_speed: BASE_SPEED,
            exhaustion_timer_ms: Some(EXHAUSTION_MS),
            ..self
        }
    }

    /// Enters the exhausted state: the speed drops to base and the cooldown
    /// timer starts.
    pub fn begin_exhaustion(&mut self)
        ensures
            *final(self) == old(self).spec_begin_exhaustion(),
    {
        self.sprint_state = SprintState::Exhausted;
        self.movement_speed = BASE_SPEED;
        self.exhaustion_timer_ms = Some(EXHAUSTION_MS);
    }

    /// The controller after the cooldown advances by `elapsed_ms`: the timer
    /// counts down, and when it reaches zero the actor returns to idle and
    /// the timer is cleared.
    pub open spec fn spec_tick_exhaustion(self, elapsed_ms: u32) -> ActorMotionController {
        let remaining = self.exhaustion_timer_ms.unwrap();
        if remaining <= elapsed_ms {
            ActorMotionController {
                sprint_state: SprintState::Idle,
                exhaustion_timer_ms: None,
                ..self
            }
        } else {
            ActorMotionController {
                exhaustion_timer_ms: Some((remaining - elapsed_ms) as u32),
                ..self
            }
        }
    }

    /// Advances the exhaustion cooldown; on expiry the actor returns to
    /// idle.
    pub fn tick_exhaustion(&mut self, elapsed_ms: u32)
        requires
            old(self).exhaustion_timer_ms is Some,
        ensures
            *final(self) == old(self).spec_tick_exhaustion(elapsed_ms),
    {
        match self.exhaustion_timer_ms {
            Some(remaining) => {
                if remaining <= elapsed_ms {
                    self.sprint_state = SprintState::Idle;
                    self.exhaustion_timer_ms = None;
                } else {
                    self.exhaustion_timer_ms = Some(remaining - elapsed_ms);
                }
            },
            None => {},
        }
    }
}

impl Default for ActorMotionController {
    /// A fresh actor starts idle with full stamina.
    fn default() -> (c: ActorMotionController)
        ensures
            c == ActorMotionController::spec_initial(),
    {
        ActorMotionController::new()
    }
}

} // verus!
