use walk_the_dog::game::{DrawError, Point, Rect, RedHatBoy, WalkTheDog};
use walk_the_dog::red_hat_boy_states::{check_ctx_step_fits, RedHatBoyContext};
use walk_the_dog::sheet::{compose_frame_name, decimal_string, Cell, Sheet, SheetRect};

fn cell(x: i16, y: i16, w: i16, h: i16) -> Cell {
    Cell { frame: SheetRect { x, y, w, h } }
}

fn sheet_with(entries: &[(&str, Cell)]) -> Sheet {
    let mut sheet = Sheet::new();
    for (name, cell) in entries {
        sheet.frames.insert(String::from(*name), *cell);
    }
    sheet
}

#[test]
fn decimal_strings_are_exact() {
    assert_eq!(decimal_string(0), "0");
    assert_eq!(decimal_string(7), "7");
    assert_eq!(decimal_string(10), "10");
    assert_eq!(decimal_string(86), "86");
    assert_eq!(decimal_string(255), "255");
}

#[test]
fn frame_names_are_composed_exactly() {
    assert_eq!(compose_frame_name("Idle", 1), "Idle (1).png");
    assert_eq!(compose_frame_name("Run", 3), "Run (3).png");
    assert_eq!(compose_frame_name("Run", 10), "Run (10).png");
}

#[test]
fn update_once_advances_the_frame_and_keeps_the_position() {
    let mut boy = RedHatBoy::new(Sheet::new());
    assert_eq!(
        *boy.state_machine().context(),
        RedHatBoyContext {
            frame: 0,
            position: Point { x: 0, y: 475 },
            velocity: Point { x: 0, y: 0 },
        }
    );
    boy.update();
    assert_eq!(boy.state_machine().context().frame, 1);
    assert_eq!(boy.state_machine().context().position, Point { x: 0, y: 475 });
}

#[test]
fn run_right_starts_running_and_moving() {
    let mut boy = RedHatBoy::new(Sheet::new());
    boy.update();
    boy.run_right();
    assert_eq!(boy.state_machine().frame_name(), "Run");
    assert_eq!(boy.state_machine().context().frame, 0);
    assert_eq!(boy.state_machine().context().velocity, Point { x: 3, y: 0 });
    assert_eq!(boy.state_machine().context().position, Point { x: 0, y: 475 });
    boy.update();
    assert_eq!(boy.state_machine().context().frame, 1);
    assert_eq!(boy.state_machine().context().position, Point { x: 3, y: 475 });
}

#[test]
fn draw_at_running_frame_seven_uses_the_third_sprite() {
    let sheet = sheet_with(&[
        ("Run (3).png", cell(100, 200, 50, 60)),
        ("Run (1).png", cell(1, 2, 3, 4)),
    ]);
    let mut boy = RedHatBoy::new(sheet);
    boy.run_right();
    for _ in 0..7 {
        boy.update();
    }
    assert_eq!(boy.state_machine().context().frame, 7);
    let command = boy.draw_command().expect("the third running sprite is registered");
    assert_eq!(command.source, Rect { x: 100, y: 200, width: 50, height: 60 });
    assert_eq!(
        command.destination,
        Rect { x: 21, y: 475, width: 50, height: 60 }
    );
}

#[test]
fn draw_with_a_missing_cell_fails_loudly() {
    let sheet = sheet_with(&[("Run (1).png", cell(1, 2, 3, 4))]);
    let boy = RedHatBoy::new(sheet);
    let error = boy.draw_command().expect_err("the idle sprite is not registered");
    assert_eq!(
        error,
        DrawError::CellNotFound { frame_name: String::from("Idle (1).png") }
    );
}

#[test]
fn sprite_lookup_follows_the_frame_counter() {
    let mut sheet = Sheet::new();
    for index in 1u8..=10 {
        let name = compose_frame_name("Idle", index);
        sheet.frames.insert(name, cell(index as i16, 0, 10, 10));
    }
    let mut boy = RedHatBoy::new(sheet);
    let mut last_index: i16 = 1;
    for _ in 0u8..=29 {
        let command = boy.draw_command().expect("every idle sprite is registered");
        let index = command.source.x;
        assert!(index >= last_index);
        last_index = index;
        boy.update();
    }
    assert_eq!(boy.state_machine().context().frame, 0);
    let command = boy.draw_command().expect("every idle sprite is registered");
    assert_eq!(command.source.x, 1);
}

#[test]
fn the_game_forwards_a_held_key_and_then_ticks() {
    let sheet = sheet_with(&[("Run (1).png", cell(9, 8, 7, 6))]);
    let mut game = WalkTheDog::initialized(sheet);
    game.update(true);
    let command = game.draw_command().expect("the first running sprite is registered");
    assert_eq!(command.source, Rect { x: 9, y: 8, width: 7, height: 6 });
    assert_eq!(command.destination, Rect { x: 3, y: 475, width: 7, height: 6 });
}

#[test]
fn a_new_game_has_no_character_yet() {
    let game = WalkTheDog::new();
    assert!(!game.is_initialized());
    let game = WalkTheDog::initialized(Sheet::new());
    assert!(game.is_initialized());
}

#[test]
fn a_step_at_the_edge_of_the_coordinate_space_is_detected() {
    let context = RedHatBoyContext {
        frame: 0,
        position: Point { x: i16::MAX, y: 475 },
        velocity: Point { x: 1, y: 0 },
    };
    assert!(!check_ctx_step_fits(&context));
    let context = RedHatBoyContext {
        frame: 0,
        position: Point { x: i16::MAX, y: 475 },
        velocity: Point { x: 0, y: 0 },
    };
    assert!(check_ctx_step_fits(&context));
    let game = WalkTheDog::initialized(Sheet::new());
    assert!(game.step_fits(true));
    assert!(game.step_fits(false));
}

#[test]
fn the_game_without_input_stays_idle() {
    let sheet = sheet_with(&[("Idle (1).png", cell(5, 5, 5, 5))]);
    let mut game = WalkTheDog::initialized(sheet);
    game.update(false);
    let command = game.draw_command().expect("the first idle sprite is registered");
    assert_eq!(command.destination, Rect { x: 0, y: 475, width: 5, height: 5 });
}
