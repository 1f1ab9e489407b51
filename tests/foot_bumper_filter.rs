use control::foot_bumper_filter::{
    CycleContext, FallState, FootBumperFilter, FootBumperValues, TouchSensors,
};

const LEFT: (i32, i32) = (1, 1);
const RIGHT: (i32, i32) = (1, -1);
const MIDDLE: (i32, i32) = (1, 0);

fn filter(buffer_size: usize) -> FootBumperFilter<(i32, i32)> {
    FootBumperFilter::new(buffer_size, LEFT, RIGHT, MIDDLE)
}

fn context(time: u64, left: bool, right: bool) -> CycleContext {
    CycleContext {
        acceptance_duration: 1000,
        activations_needed: 2,
        enabled: true,
        number_of_detections_in_buffer_for_defective_declaration: 3,
        number_of_detections_in_buffer_to_reset_in_use: 1,
        cycle_time: time,
        fall_state: FallState::Upright,
        touch_sensors: TouchSensors {
            left_foot_left: left,
            left_foot_right: false,
            right_foot_left: false,
            right_foot_right: right,
        },
        foot_bumper_values_requested: true,
    }
}

fn positions(filter: &mut FootBumperFilter<(i32, i32)>, context: CycleContext) -> Vec<(i32, i32)> {
    filter
        .cycle(context)
        .foot_bumper_obstacle
        .iter()
        .map(|o| o.position_in_robot)
        .collect()
}

#[test]
fn two_left_edges_detect_an_obstacle_on_the_left() {
    let mut f = filter(5);
    f.cycle(context(0, true, false));
    f.cycle(context(10, false, false));
    let outputs = f.cycle(context(20, true, false));
    let values = outputs.foot_bumper_values.unwrap();
    assert!(values.obstacle_deteced_on_left);
    assert!(!values.obstacle_deteced_on_right);
    assert_eq!(values.left_foot_bumper_count, 2);
    assert_eq!(outputs.foot_bumper_obstacle.len(), 1);
    assert_eq!(outputs.foot_bumper_obstacle[0].position_in_robot, LEFT);
}

#[test]
fn a_single_press_detects_nothing() {
    let mut f = filter(5);
    let first = f.cycle(context(0, true, false));
    assert!(!first.foot_bumper_values.unwrap().obstacle_deteced_on_left);
    let held = f.cycle(context(10, true, false));
    assert!(!held.foot_bumper_values.unwrap().obstacle_deteced_on_left);
    assert_eq!(f.left_count(), 1);
    assert!(held.foot_bumper_obstacle.is_empty());
}

#[test]
fn both_sides_report_the_middle() {
    let mut f = filter(5);
    f.cycle(context(0, true, true));
    f.cycle(context(10, false, false));
    assert_eq!(positions(&mut f, context(20, true, true)), vec![MIDDLE]);
}

#[test]
fn right_side_reports_the_right_point() {
    let mut f = filter(5);
    f.cycle(context(0, false, true));
    f.cycle(context(10, false, false));
    assert_eq!(positions(&mut f, context(20, false, true)), vec![RIGHT]);
}

#[test]
fn activations_decay_after_the_acceptance_window() {
    let mut f = filter(5);
    f.cycle(context(0, true, false));
    f.cycle(context(10, false, false));
    assert_eq!(f.left_count(), 1);
    assert_eq!(f.last_left_time(), Some(0));
    f.cycle(context(1000, false, false));
    assert_eq!(f.left_count(), 1);
    f.cycle(context(1001, false, false));
    assert_eq!(f.left_count(), 0);
    assert_eq!(f.last_left_time(), None);
    let outputs = f.cycle(context(1100, true, false));
    assert_eq!(outputs.foot_bumper_values.unwrap().left_foot_bumper_count, 1);
    assert!(outputs.foot_bumper_obstacle.is_empty());
}

#[test]
fn stuck_side_goes_out_of_use_and_recovers() {
    let mut f = filter(5);
    f.cycle(context(0, true, false));
    f.cycle(context(1, true, false));
    assert!(f.left_in_use());
    f.cycle(context(2, true, false));
    assert!(!f.left_in_use());
    f.cycle(context(3, false, false));
    assert!(!f.left_in_use());
    f.cycle(context(4, false, false));
    assert!(!f.left_in_use());
    f.cycle(context(5, false, false));
    assert!(!f.left_in_use());
    f.cycle(context(6, false, false));
    assert!(f.left_in_use());
    assert!(f.right_in_use());
}

#[test]
fn side_out_of_use_reports_nothing() {
    let mut f = filter(5);
    f.cycle(context(0, true, false));
    f.cycle(context(1, false, false));
    f.cycle(context(2, true, false));
    f.cycle(context(3, false, false));
    let outputs = f.cycle(context(4, true, false));
    assert!(!f.left_in_use());
    assert!(outputs.foot_bumper_values.unwrap().obstacle_deteced_on_left);
    assert!(outputs.foot_bumper_obstacle.is_empty());
}

#[test]
fn disabled_cycles_leave_no_trace() {
    let mut with_pause = filter(5);
    let mut without = filter(5);
    with_pause.cycle(context(0, true, false));
    without.cycle(context(0, true, false));
    for time in 1..4 {
        let mut disabled = context(time, time % 2 == 0, true);
        disabled.enabled = false;
        let outputs = with_pause.cycle(disabled);
        assert!(outputs.foot_bumper_obstacle.is_empty());
        assert!(outputs.foot_bumper_values.is_none());
        assert_eq!(with_pause.left_count(), 1);
        assert_eq!(with_pause.right_count(), 0);
    }
    with_pause.cycle(context(10, false, false));
    without.cycle(context(10, false, false));
    let a = with_pause.cycle(context(20, true, false));
    let b = without.cycle(context(20, true, false));
    assert_eq!(a.foot_bumper_values, b.foot_bumper_values);
    assert_eq!(a.foot_bumper_obstacle.len(), b.foot_bumper_obstacle.len());
    assert_eq!(with_pause.left_in_use(), without.left_in_use());
}

#[test]
fn fallen_robot_reports_no_obstacle() {
    for fall_state in [FallState::Falling, FallState::Fallen, FallState::StandingUp] {
        let mut f = filter(5);
        let mut c = context(0, true, true);
        c.fall_state = fall_state;
        f.cycle(c);
        c.cycle_time = 10;
        c.touch_sensors.left_foot_left = false;
        c.touch_sensors.right_foot_right = false;
        f.cycle(c);
        c.cycle_time = 20;
        c.touch_sensors.left_foot_left = true;
        c.touch_sensors.right_foot_right = true;
        let outputs = f.cycle(c);
        let values = outputs.foot_bumper_values.unwrap();
        assert!(values.obstacle_deteced_on_left && values.obstacle_deteced_on_right);
        assert!(outputs.foot_bumper_obstacle.is_empty());
    }
}

#[test]
fn values_are_produced_only_on_request() {
    let mut f = filter(5);
    let mut c = context(0, true, false);
    c.foot_bumper_values_requested = false;
    assert!(f.cycle(c).foot_bumper_values.is_none());
    c.cycle_time = 1;
    c.foot_bumper_values_requested = true;
    assert_eq!(
        f.cycle(c).foot_bumper_values,
        Some(FootBumperValues {
            left_foot_bumper_count: 1,
            right_foot_bumper_count: 0,
            obstacle_deteced_on_left: false,
            obstacle_deteced_on_right: false,
        })
    );
}

#[test]
fn empty_record_never_declares_a_side_defective() {
    let mut f = filter(0);
    for time in 0..6 {
        f.cycle(context(time, true, true));
    }
    assert!(f.left_in_use());
    assert!(f.right_in_use());
}
