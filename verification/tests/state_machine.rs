use walk_the_dog::game::{Event, Point, RedHatBoyStateMachine};
use walk_the_dog::red_hat_boy_states::{Idle, RedHatBoyContext, RedHatBoyState};

fn idle_machine() -> RedHatBoyStateMachine {
    RedHatBoyStateMachine::Idle(RedHatBoyState::<Idle>::new())
}

#[test]
fn advance_increments_frame_and_adds_velocity() {
    let context = RedHatBoyContext {
        frame: 5,
        position: Point { x: 10, y: 20 },
        velocity: Point { x: 2, y: -3 },
    };
    let updated = context.update(29);
    assert_eq!(updated.frame, 6);
    assert_eq!(updated.position, Point { x: 12, y: 17 });
    assert_eq!(updated.velocity, Point { x: 2, y: -3 });
}

#[test]
fn advance_wraps_frame_at_limit() {
    let context = RedHatBoyContext {
        frame: 29,
        position: Point { x: 0, y: 475 },
        velocity: Point { x: 0, y: 0 },
    };
    let updated = context.update(29);
    assert_eq!(updated.frame, 0);
    assert_eq!(updated.position, Point { x: 0, y: 475 });
}

#[test]
fn advance_is_unconditional_integration() {
    let context = RedHatBoyContext {
        frame: 0,
        position: Point { x: -5, y: 475 },
        velocity: Point { x: -7, y: 11 },
    };
    let updated = context.update(23);
    assert_eq!(updated.frame, 1);
    assert_eq!(updated.position, Point { x: -12, y: 486 });
}

#[test]
fn initial_state_is_idle_on_the_floor() {
    let state = RedHatBoyState::<Idle>::new();
    assert_eq!(state.context().frame, 0);
    assert_eq!(state.context().position, Point { x: 0, y: 475 });
    assert_eq!(state.context().velocity, Point { x: 0, y: 0 });
    assert_eq!(state.frame_name(), "Idle");
}

#[test]
fn run_from_idle_starts_running() {
    let machine = idle_machine();
    let machine = machine.transition(Event::Run);
    assert_eq!(machine.frame_name(), "Run");
    assert_eq!(machine.context().frame, 0);
    assert_eq!(machine.context().position, Point { x: 0, y: 475 });
    assert_eq!(machine.context().velocity, Point { x: 3, y: 0 });
}

#[test]
fn run_transition_resets_frame_and_keeps_position() {
    let mut machine = idle_machine();
    for _ in 0..7 {
        machine = machine.update();
    }
    assert_eq!(machine.context().frame, 7);
    let machine = machine.transition(Event::Run);
    assert_eq!(machine.frame_name(), "Run");
    assert_eq!(machine.context().frame, 0);
    assert_eq!(machine.context().position, Point { x: 0, y: 475 });
    assert_eq!(machine.context().velocity, Point { x: 3, y: 0 });
}

#[test]
fn run_while_already_running_is_a_no_op() {
    let machine = idle_machine().transition(Event::Run);
    let before = *machine.context();
    let after = machine.transition(Event::Run);
    assert_eq!(after.frame_name(), "Run");
    assert_eq!(*after.context(), before);
}

#[test]
fn update_keeps_the_variant() {
    let mut machine = idle_machine();
    machine = machine.update();
    assert_eq!(machine.frame_name(), "Idle");
    let mut machine = machine.transition(Event::Run);
    machine = machine.update();
    assert_eq!(machine.frame_name(), "Run");
}

#[test]
fn idle_cycle_round_trips_after_thirty_ticks() {
    let mut machine = idle_machine();
    for tick in 0u8..30 {
        assert_eq!(machine.context().frame, tick);
        machine = machine.update();
    }
    assert_eq!(machine.frame_name(), "Idle");
    assert_eq!(machine.context().frame, 0);
}

#[test]
fn running_cycle_round_trips_after_twenty_four_ticks() {
    let mut machine = idle_machine().transition(Event::Run);
    for tick in 0u8..24 {
        assert_eq!(machine.context().frame, tick);
        machine = machine.update();
    }
    assert_eq!(machine.frame_name(), "Run");
    assert_eq!(machine.context().frame, 0);
}

#[test]
fn sprite_index_is_non_decreasing_within_the_idle_cycle() {
    let mut machine = idle_machine();
    let mut last_index: u8 = 1;
    for _ in 0..=29 {
        let index = machine.context().frame / 3 + 1;
        assert!(index >= last_index);
        last_index = index;
        machine = machine.update();
    }
    assert_eq!(machine.context().frame, 0);
    assert_eq!(machine.context().frame / 3 + 1, 1);
}
