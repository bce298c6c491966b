use actor_motion::input::FrameInput;
use actor_motion::state::{
    ActorMotionController, SprintState, Stamina, BASE_SPEED, EXHAUSTION_MS, MAX_STAMINA_MS,
    SPRINT_SPEED,
};

fn keys(
    left: bool,
    right: bool,
    forward: bool,
    backward: bool,
    sprint_held: bool,
    sprint_released: bool,
) -> FrameInput {
    FrameInput { left, right, forward, backward, sprint_held, sprint_released }
}

fn sprint_forward() -> FrameInput {
    keys(false, false, true, false, true, false)
}

fn idle_with_stamina(current: u32) -> ActorMotionController {
    ActorMotionController {
        sprint_state: SprintState::Idle,
        movement_speed: BASE_SPEED,
        stamina: Stamina { current, max: MAX_STAMINA_MS },
        exhaustion_timer_ms: None,
    }
}

fn sprinting_with_stamina(current: u32) -> ActorMotionController {
    ActorMotionController {
        sprint_state: SprintState::Sprinting,
        movement_speed: SPRINT_SPEED,
        stamina: Stamina { current, max: MAX_STAMINA_MS },
        exhaustion_timer_ms: None,
    }
}

fn exhausted_with_timer(remaining_ms: u32) -> ActorMotionController {
    ActorMotionController {
        sprint_state: SprintState::Exhausted,
        movement_speed: BASE_SPEED,
        stamina: Stamina { current: 0, max: MAX_STAMINA_MS },
        exhaustion_timer_ms: Some(remaining_ms),
    }
}

#[test]
fn initial_state_is_idle_and_full() {
    let c = ActorMotionController::new();
    assert_eq!(c.sprint_state, SprintState::Idle);
    assert_eq!(c.movement_speed, BASE_SPEED);
    assert_eq!(c.stamina.current, MAX_STAMINA_MS);
    assert_eq!(c.stamina.max, MAX_STAMINA_MS);
    assert_eq!(c.exhaustion_timer_ms, None);
    assert_eq!(c, ActorMotionController::default());
    assert_eq!(Stamina::default(), Stamina { current: MAX_STAMINA_MS, max: MAX_STAMINA_MS });
}

#[test]
fn no_input_zero_elapsed_changes_nothing_idle() {
    let mut c = idle_with_stamina(700);
    let before = c;
    let d = c.step(&FrameInput::no_keys(), 0);
    assert_eq!(c, before);
    assert_eq!(d.dir.x, 0);
    assert_eq!(d.dir.y, 0);
    assert_eq!(d.magnitude_milli, 0);
}

#[test]
fn no_input_zero_elapsed_changes_nothing_sprinting() {
    let mut c = sprinting_with_stamina(1200);
    let before = c;
    let d = c.step(&FrameInput::no_keys(), 0);
    assert_eq!(c, before);
    assert_eq!(d.magnitude_milli, 0);
}

#[test]
fn no_input_zero_elapsed_changes_nothing_exhausted() {
    let mut c = exhausted_with_timer(500);
    let before = c;
    let d = c.step(&FrameInput::no_keys(), 0);
    assert_eq!(c, before);
    assert_eq!(d.magnitude_milli, 0);
}

#[test]
fn depletion_runs_stamina_out_then_exhausts() {
    // Press sprint + forward over frames whose elapsed times sum to the full
    // two seconds of capacity.
    let mut c = ActorMotionController::new();
    c.step(&sprint_forward(), 0);
    assert_eq!(c.sprint_state, SprintState::Sprinting);
    assert_eq!(c.movement_speed, SPRINT_SPEED);
    c.step(&sprint_forward(), 2000);
    assert_eq!(c.stamina.current, 0);
    c.step(&sprint_forward(), 0);
    assert_eq!(c.sprint_state, SprintState::Exhausted);
    assert_eq!(c.stamina.current, 0);
    assert_eq!(c.movement_speed, BASE_SPEED);
    assert_eq!(c.exhaustion_timer_ms, Some(EXHAUSTION_MS));
}

#[test]
fn depletion_is_granularity_independent() {
    let mut c = ActorMotionController::new();
    c.step(&sprint_forward(), 0);
    for _ in 0..4 {
        c.step(&sprint_forward(), 500);
    }
    assert_eq!(c.stamina.current, 0);
    assert_eq!(c.sprint_state, SprintState::Sprinting);
    c.step(&sprint_forward(), 0);
    assert_eq!(c.sprint_state, SprintState::Exhausted);
    assert_eq!(c.movement_speed, BASE_SPEED);
}

#[test]
fn regen_from_empty_at_half_rate() {
    // Idle with empty stamina, one second with no keys: half a second of
    // capacity comes back.
    let mut c = idle_with_stamina(0);
    c.step(&FrameInput::no_keys(), 1000);
    assert_eq!(c.stamina.current, 500);
    assert_eq!(c.sprint_state, SprintState::Idle);
}

#[test]
fn regen_clamps_at_capacity() {
    let mut c = idle_with_stamina(1900);
    c.step(&FrameInput::no_keys(), 1000);
    assert_eq!(c.stamina.current, MAX_STAMINA_MS);
}

#[test]
fn no_regen_while_exhausted() {
    let mut c = exhausted_with_timer(EXHAUSTION_MS);
    c.step(&FrameInput::no_keys(), 400);
    assert_eq!(c.stamina.current, 0);
    assert_eq!(c.exhaustion_timer_ms, Some(600));
}

#[test]
fn exhaustion_expires_in_one_frame() {
    let mut c = exhausted_with_timer(1000);
    c.step(&FrameInput::no_keys(), 1000);
    assert_eq!(c.sprint_state, SprintState::Idle);
    assert_eq!(c.exhaustion_timer_ms, None);
}

#[test]
fn exhaustion_expires_across_split_frames() {
    let mut c = exhausted_with_timer(1000);
    c.step(&FrameInput::no_keys(), 300);
    assert_eq!(c.sprint_state, SprintState::Exhausted);
    assert_eq!(c.exhaustion_timer_ms, Some(700));
    c.step(&FrameInput::no_keys(), 700);
    assert_eq!(c.sprint_state, SprintState::Idle);
    assert_eq!(c.exhaustion_timer_ms, None);

    let mut c2 = exhausted_with_timer(1000);
    c2.step(&FrameInput::no_keys(), 500);
    c2.step(&FrameInput::no_keys(), 499);
    assert_eq!(c2.sprint_state, SprintState::Exhausted);
    assert_eq!(c2.exhaustion_timer_ms, Some(1));
    c2.step(&FrameInput::no_keys(), 1);
    assert_eq!(c2.sprint_state, SprintState::Idle);
    assert_eq!(c2.exhaustion_timer_ms, None);
}

#[test]
fn exhausted_ignores_the_sprint_key() {
    let mut c = exhausted_with_timer(800);
    c.step(&keys(false, false, false, false, true, false), 300);
    assert_eq!(c.sprint_state, SprintState::Exhausted);
    assert_eq!(c.exhaustion_timer_ms, Some(500));
    assert_eq!(c.movement_speed, BASE_SPEED);
}

#[test]
fn no_drain_while_stationary() {
    let mut c = sprinting_with_stamina(1500);
    c.step(&keys(false, false, false, false, true, false), 800);
    assert_eq!(c.stamina.current, 1500);
    assert_eq!(c.sprint_state, SprintState::Sprinting);
}

#[test]
fn sprint_release_returns_to_idle() {
    let mut c = sprinting_with_stamina(900);
    c.step(&keys(false, false, true, false, false, true), 100);
    assert_eq!(c.sprint_state, SprintState::Idle);
    assert_eq!(c.movement_speed, BASE_SPEED);
    // The release frame itself does not drain.
    assert_eq!(c.stamina.current, 900);
}

#[test]
fn depletion_saturates_at_zero() {
    let mut c = sprinting_with_stamina(300);
    c.step(&sprint_forward(), 500);
    assert_eq!(c.stamina.current, 0);
    assert_eq!(c.sprint_state, SprintState::Sprinting);
    c.step(&sprint_forward(), 0);
    assert_eq!(c.sprint_state, SprintState::Exhausted);
}

#[test]
fn delta_uses_the_speed_after_transitions() {
    // The frame that starts the sprint already moves at the sprint speed.
    let mut c = ActorMotionController::new();
    let d = c.step(&sprint_forward(), 1000);
    assert_eq!(c.movement_speed, SPRINT_SPEED);
    assert_eq!(d.magnitude_milli, SPRINT_SPEED as u64 * 1000);
}
