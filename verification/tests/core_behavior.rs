use testbed2d::CameraState;
use testbed2d::Command;
use testbed2d::Key;
use testbed2d::StepBudget;
use testbed2d::on_key_down;
use testbed2d::on_key_up;
use testbed2d::plan_substeps;
use testbed2d::substep_count;

#[test]
fn three_whole_substeps_fit_in_35_ms() {
    let budget = StepBudget { elapsed_micros: 35_000, substep_micros: 10_000, max_substeps: 10 };
    let deltas = plan_substeps(budget);
    assert_eq!(deltas.len(), 3);
    for d in &deltas {
        assert_eq!(*d, 10_000);
    }
    assert_eq!(substep_count(35_000, 10_000, 10), 3);
}

#[test]
fn long_stall_is_capped_at_ten_substeps() {
    let budget = StepBudget { elapsed_micros: 5_000_000, substep_micros: 10_000, max_substeps: 10 };
    let deltas = plan_substeps(budget);
    assert_eq!(deltas.len(), 10);
    for d in &deltas {
        assert_eq!(*d, 10_000);
    }
    assert_eq!(substep_count(5_000_000, 10_000, 10), 10);
}

#[test]
fn zero_elapsed_and_zero_cap_run_nothing() {
    assert_eq!(substep_count(0, 10_000, 10), 0);
    assert_eq!(substep_count(9_999, 10_000, 10), 0);
    let none = plan_substeps(StepBudget {
        elapsed_micros: 123_456,
        substep_micros: 10_000,
        max_substeps: 0,
    });
    assert_eq!(none.len(), 0);
}

#[test]
fn up_then_down_returns_camera_to_origin() {
    let mut cam = CameraState::origin();
    assert_eq!(on_key_down(&mut cam, Key::Up), Command::Nothing);
    assert_eq!(cam, CameraState { x: 0, y: 1, z: 0 });
    assert_eq!(on_key_down(&mut cam, Key::Down), Command::Nothing);
    assert_eq!(cam, CameraState { x: 0, y: 0, z: 0 });
}

#[test]
fn right_twice_moves_two_units() {
    let mut cam = CameraState::origin();
    on_key_down(&mut cam, Key::Right);
    on_key_down(&mut cam, Key::Right);
    assert_eq!(cam, CameraState { x: 2, y: 0, z: 0 });
}

#[test]
fn each_directional_key_moves_exactly_one_axis() {
    let mut cam = CameraState { x: 7, y: -3, z: 2 };
    on_key_down(&mut cam, Key::Left);
    assert_eq!(cam, CameraState { x: 6, y: -3, z: 2 });
    on_key_down(&mut cam, Key::Down);
    assert_eq!(cam, CameraState { x: 6, y: -4, z: 2 });
    on_key_down(&mut cam, Key::Other);
    assert_eq!(cam, CameraState { x: 6, y: -4, z: 2 });
}

#[test]
fn escape_quits_and_key_up_is_a_no_op() {
    let mut cam = CameraState { x: 1, y: 2, z: 3 };
    assert_eq!(on_key_down(&mut cam, Key::Escape), Command::Quit);
    assert_eq!(cam, CameraState { x: 1, y: 2, z: 3 });
    assert_eq!(on_key_up(&mut cam, Key::Up), Command::Nothing);
    assert_eq!(cam, CameraState { x: 1, y: 2, z: 3 });
}
