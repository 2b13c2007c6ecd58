use canon_3d::hud::{
    code_slot, player_name, primary_enabled, primary_label, status, status_tint, Stage, Status,
    Tint,
};

#[test]
fn the_status_line_follows_the_phase() {
    assert_eq!(status(Stage::Handoff, true, false, 1), Status::WaitingFor(1));
    assert_eq!(status(Stage::Handoff, true, true, 1), Status::YourTurn(1));
    assert_eq!(status(Stage::Handoff, false, false, 0), Status::YourTurn(0));
    assert_eq!(status(Stage::Aiming, true, false, 0), Status::IsAiming(0));
    assert_eq!(status(Stage::Aiming, false, false, 0), Status::LineUp(0));
    assert_eq!(status(Stage::Flying, true, true, 0), Status::InFlight);
    assert_eq!(status(Stage::Resolving, false, true, 1), Status::Settling);
    assert_eq!(status(Stage::Finished(Some(1)), false, true, 0), Status::Wins(1));
    assert_eq!(status(Stage::Finished(None), false, true, 0), Status::Draw);
    assert_eq!(status_tint(Status::Wins(0), 1), Tint::Gold);
    assert_eq!(status_tint(Status::Draw, 0), Tint::Gold);
    assert_eq!(status_tint(Status::LineUp(0), 0), Tint::Red);
    assert_eq!(status_tint(Status::InFlight, 1), Tint::Blue);
    assert_eq!(player_name(0), "RED");
    assert_eq!(player_name(1), "BLUE");
}

#[test]
fn the_primary_button_reads_its_meaning() {
    assert_eq!(primary_label(true, Stage::Aiming), "PAUSED / ESC");
    assert_eq!(primary_label(false, Stage::Handoff), "READY / ENTER");
    assert_eq!(primary_label(false, Stage::Aiming), "FIRE / SPACE");
    assert_eq!(primary_label(false, Stage::Flying), "SHOT IN PROGRESS");
    assert_eq!(primary_label(false, Stage::Resolving), "SHOT IN PROGRESS");
    assert_eq!(primary_label(false, Stage::Finished(None)), "MATCH COMPLETE");
    assert!(primary_enabled(false, Stage::Handoff));
    assert!(primary_enabled(false, Stage::Aiming));
    assert!(!primary_enabled(true, Stage::Aiming));
    assert!(!primary_enabled(false, Stage::Flying));
}

#[test]
fn code_boxes_fill_and_show_the_cursor() {
    assert_eq!(code_slot(0, 0, false), (false, true));
    assert_eq!(code_slot(1, 0, false), (false, false));
    assert_eq!(code_slot(1, 2, false), (true, false));
    assert_eq!(code_slot(2, 2, false), (false, true));
    assert_eq!(code_slot(2, 2, true), (false, false));
    assert_eq!(code_slot(3, 4, false), (true, false));
    assert_eq!(code_slot(3, 7, false), (true, false));
}
