use vstd::prelude::*;

use crate::input::{spec_dir_x, spec_dir_y, spec_moving, FrameInput};
use crate::state::{ActorMotionController, SprintState, BASE_SPEED, EXHAUSTION_MS, SPRINT_SPEED};
use crate::step::spec_step_state;

verus! {

/// Every frame keeps stamina within bounds: from any well-formed state,
/// the stepped state has `0 <= stamina.current <= stamina.max`.
pub proof fn lemma_stamina_in_bounds(s: ActorMotionController, inp: FrameInput, elapsed_ms: u32)
    requires
        s.wf(),
    ensures
        0 <= spec_step_state(s, inp, elapsed_ms).stamina.current,
        spec_step_state(s, inp, elapsed_ms).stamina.current <= spec_step_state(
            s,
            inp,
            elapsed_ms,
        ).stamina.max,
{
}

/// The speed is always consistent with the sprint state: after any frame
/// from a well-formed state, a sprinting actor moves at the sprint speed and
/// any other actor at the base speed.
pub proof fn lemma_speed_matches_state(s: ActorMotionController, inp: FrameInput, elapsed_ms: u32)
    requires
        s.wf(),
    ensures
        spec_step_state(s, inp, elapsed_ms).sprint_state == SprintState::Sprinting
            ==> spec_step_state(s, inp, elapsed_ms).movement_speed == SPRINT_SPEED,
        spec_step_state(s, inp, elapsed_ms).sprint_state != SprintState::Sprinting
            ==> spec_step_state(s, inp, elapsed_ms).movement_speed == BASE_SPEED,
{
}

/// Every frame preserves well-formedness, so both bounds above hold of all
/// states reachable from the starting state.
pub proof fn lemma_step_preserves_wf(s: ActorMotionController, inp: FrameInput, elapsed_ms: u32)
    requires
        s.wf(),
    ensures
        spec_step_state(s, inp, elapsed_ms).wf(),
{
}

/// Exhaustion is entered only from sprinting on empty stamina: a frame ends
/// exhausted only when it began exhausted with cooldown remaining, or began
/// sprinting with zero stamina.
pub proof fn lemma_exhaustion_only_from_sprinting(
    s: ActorMotionController,
    inp: FrameInput,
    elapsed_ms: u32,
)
    requires
        s.wf(),
    ensures
        spec_step_state(s, inp, elapsed_ms).sprint_state == SprintState::Exhausted ==> (
        s.sprint_state == SprintState::Exhausted || (s.sprint_state == SprintState::Sprinting
            && s.stamina.current == 0)),
{
}

/// A frame with no keys held and no elapsed time changes nothing. The one
/// well-formed state this does not hold of is a sprinting actor whose
/// stamina already reached zero: that frame enters exhaustion whatever the
/// input.
pub proof fn lemma_no_input_no_change(s: ActorMotionController)
    requires
        s.wf(),
        !(s.sprint_state == SprintState::Sprinting && s.stamina.current == 0),
    ensures
        spec_step_state(s, FrameInput::spec_no_keys(), 0) == s,
        !spec_moving(FrameInput::spec_no_keys()),
{
}

/// While sprinting with the key held and the actor moving, each frame drains
/// stamina by exactly the elapsed time, saturating at zero, and the actor
/// keeps sprinting; exhaustion is observed by a later frame.
pub proof fn lemma_sprint_drain(s: ActorMotionController, inp: FrameInput, elapsed_ms: u32)
    requires
        s.wf(),
        s.sprint_state == SprintState::Sprinting,
        s.stamina.current > 0,
        !inp.sprint_released,
        spec_moving(inp),
    ensures
        spec_step_state(s, inp, elapsed_ms).sprint_state == SprintState::Sprinting,
        spec_step_state(s, inp, elapsed_ms).stamina.current == if s.stamina.current <= elapsed_ms {
            0int
        } else {
            s.stamina.current - elapsed_ms
        },
{
}

/// A sprinting actor whose stamina has reached zero becomes exhausted on the
/// next frame: speed back to base, the cooldown timer started, stamina left
/// at zero.
pub proof fn lemma_exhaustion_entry(s: ActorMotionController, inp: FrameInput, elapsed_ms: u32)
    requires
        s.wf(),
        s.sprint_state == SprintState::Sprinting,
        s.stamina.current == 0,
    ensures
        spec_step_state(s, inp, elapsed_ms).sprint_state == SprintState::Exhausted,
        spec_step_state(s, inp, elapsed_ms).movement_speed == BASE_SPEED,
        spec_step_state(s, inp, elapsed_ms).exhaustion_timer_ms == Some(EXHAUSTION_MS),
        spec_step_state(s, inp, elapsed_ms).stamina == s.stamina,
{
}

/// The exhaustion cooldown counts down by exactly the elapsed time, whatever
/// the input, and expires exactly when the elapsed time covers what remains.
pub proof fn lemma_exhaustion_countdown(s: ActorMotionController, inp: FrameInput, elapsed_ms: u32)
    requires
        s.wf(),
        s.sprint_state == SprintState::Exhausted,
    ensures
        elapsed_ms >= s.exhaustion_timer_ms.unwrap() ==> (spec_step_state(
            s,
            inp,
            elapsed_ms,
        ).sprint_state == SprintState::Idle && spec_step_state(s, inp, elapsed_ms).exhaustion_timer_ms
            is None),
        elapsed_ms < s.exhaustion_timer_ms.unwrap() ==> (spec_step_state(
            s,
            inp,
            elapsed_ms,
        ).sprint_state == SprintState::Exhausted && spec_step_state(
            s,
            inp,
            elapsed_ms,
        ).exhaustion_timer_ms == Some((s.exhaustion_timer_ms.unwrap() - elapsed_ms) as u32)),
        spec_step_state(s, inp, elapsed_ms).stamina == s.stamina,
{
}

/// However the remaining cooldown is split across two idle frames, the
/// moment their elapsed times sum to at least what remains, the actor is
/// back to idle with the timer cleared.
pub proof fn lemma_exhaustion_expiry_split(s: ActorMotionController, e1: u32, e2: u32)
    requires
        s.wf(),
        s.sprint_state == SprintState::Exhausted,
        e1 + e2 >= s.exhaustion_timer_ms.unwrap(),
    ensures
        ({
            let after = spec_step_state(
                spec_step_state(s, FrameInput::spec_no_keys(), e1),
                FrameInput::spec_no_keys(),
                e2,
            );
            after.sprint_state == SprintState::Idle && after.exhaustion_timer_ms is None
        }),
{
    lemma_step_preserves_wf(s, FrameInput::spec_no_keys(), e1);
}

/// Opposing keys cancel exactly, and a single held movement key yields the
/// unit vector of its axis.
pub proof fn lemma_direction_cancellation(inp: FrameInput)
    ensures
        inp.left && inp.right ==> spec_dir_x(inp) == 0,
        inp.forward && inp.backward ==> spec_dir_y(inp) == 0,
        (inp.forward && !inp.backward && !inp.left && !inp.right) ==> (spec_dir_x(inp) == 0
            && spec_dir_y(inp) == 1),
{
}

/// Sprinting without movement drains nothing: a frame whose direction is
/// zero leaves the stamina of a sprinting actor unchanged, whatever the
/// elapsed time.
pub proof fn lemma_no_drain_while_stationary(
    s: ActorMotionController,
    inp: FrameInput,
    elapsed_ms: u32,
)
    requires
        s.wf(),
        s.sprint_state == SprintState::Sprinting,
        !spec_moving(inp),
    ensures
        spec_step_state(s, inp, elapsed_ms).stamina == s.stamina,
{
}

} // verus!
