use control::spline_interpolator::{
    Interpolation, InterpolatorError, Key, MotionFile, MotionFrame, SplineInterpolator,
};

fn key(t: u64, value: i32) -> Key<i32> {
    Key::new(t, value, Interpolation::Linear)
}

fn times_and_values(interpolator: &SplineInterpolator<i32>) -> Vec<(i128, i32)> {
    interpolator.keys().iter().map(|k| (k.t, k.value)).collect()
}

#[test]
fn no_keys_are_too_few() {
    let result = SplineInterpolator::<i32>::try_new(vec![]);
    assert!(matches!(result, Err(InterpolatorError::TooFewKeysError)));
}

#[test]
fn one_key_is_too_few() {
    let result = SplineInterpolator::try_new(vec![key(5, 1)]);
    assert!(matches!(result, Err(InterpolatorError::TooFewKeysError)));
}

#[test]
fn unsupported_mode_is_named() {
    let keys = vec![key(0, 1), Key::new(10, 2, Interpolation::Step(3)), key(20, 3)];
    match SplineInterpolator::try_new(keys) {
        Err(InterpolatorError::UnsupportedInterpolationMode { interpolation_mode }) => {
            assert!(matches!(interpolation_mode, Interpolation::Step(3)))
        }
        _ => panic!("expected an unsupported mode"),
    }
}

#[test]
fn first_unsupported_mode_in_time_order_is_named() {
    let keys = vec![
        Key::new(30, 1, Interpolation::StrokeBezier(4, 5)),
        key(0, 2),
        Key::new(10, 3, Interpolation::Bezier(6)),
    ];
    match SplineInterpolator::try_new(keys) {
        Err(InterpolatorError::UnsupportedInterpolationMode { interpolation_mode }) => {
            assert!(matches!(interpolation_mode, Interpolation::Bezier(6)))
        }
        _ => panic!("expected an unsupported mode"),
    }
}

#[test]
fn keys_are_sorted_normalized_and_framed_by_boundary_keys() {
    let keys = vec![key(110, 3), key(100, 1), key(120, 2)];
    let interpolator = SplineInterpolator::try_new(keys).unwrap();
    assert_eq!(
        times_and_values(&interpolator),
        vec![(-10, 3), (0, 1), (10, 3), (20, 2), (30, 3)]
    );
    assert_eq!(interpolator.end_time(), 20);
    assert_eq!(interpolator.current_time(), 0);
}

#[test]
fn boundary_keys_take_the_mode_of_the_edge_key() {
    let keys = vec![
        Key::new(0, 1, Interpolation::CatmullRom),
        key(10, 2),
        Key::new(20, 3, Interpolation::Cosine),
    ];
    let interpolator = SplineInterpolator::try_new(keys).unwrap();
    let modes: Vec<String> = interpolator.keys().iter().map(|k| k.interpolation.name()).collect();
    assert_eq!(modes, vec!["CatmullRom", "CatmullRom", "Linear", "Cosine", "Cosine"]);
}

#[test]
fn sorted_keys_start_at_the_first_key() {
    let keys = vec![key(40, 7), key(50, 8), key(70, 9)];
    let interpolator = SplineInterpolator::try_new(keys).unwrap();
    let start = interpolator.keys().iter().find(|k| k.t == 0).unwrap();
    assert_eq!(start.value, 7);
    assert!(!interpolator.is_finished());
}

#[test]
fn sample_is_used_before_the_end() {
    let mut interpolator = SplineInterpolator::try_new(vec![key(0, 1), key(100, 2)]).unwrap();
    interpolator.advance_by(40);
    assert!(matches!(interpolator.value(Some(42)), Ok(42)));
}

#[test]
fn advance_then_reset_restores_the_start() {
    let mut interpolator = SplineInterpolator::try_new(vec![key(0, 1), key(100, 2)]).unwrap();
    interpolator.advance_by(150);
    assert!(interpolator.is_finished());
    interpolator.reset();
    assert_eq!(interpolator.current_time(), 0);
    assert!(!interpolator.is_finished());
    assert!(matches!(interpolator.value(Some(1)), Ok(1)));
}

#[test]
fn finished_exactly_at_the_duration() {
    let mut interpolator = SplineInterpolator::try_new(vec![key(10, 1), key(60, 2)]).unwrap();
    interpolator.advance_by(49);
    assert!(!interpolator.is_finished());
    interpolator.advance_by(1);
    assert!(interpolator.is_finished());
}

#[test]
fn terminal_value_is_the_last_keyframe() {
    let mut interpolator =
        SplineInterpolator::try_new(vec![key(0, 1), key(10, 2), key(30, 5)]).unwrap();
    interpolator.advance_by(1000);
    assert!(matches!(interpolator.value(None), Ok(5)));
    assert!(matches!(interpolator.value(Some(99)), Ok(5)));
}

#[test]
fn missing_sample_reports_control_keys() {
    let mut interpolator =
        SplineInterpolator::try_new(vec![key(0, 1), key(10, 2), key(20, 3)]).unwrap();
    interpolator.advance_by(5);
    match interpolator.value(None) {
        Err(InterpolatorError::InterpolationControlKeyError {
            interpolation_mode,
            keys_before,
            keys_after,
        }) => {
            assert_eq!(interpolation_mode, "Linear");
            assert_eq!(keys_before, 2);
            assert_eq!(keys_after, 3);
        }
        _ => panic!("expected a control key error"),
    }
}

#[test]
fn missing_sample_at_a_key_time_counts_neither_side() {
    let mut interpolator = SplineInterpolator::try_new(vec![
        Key::new(0, 1, Interpolation::CatmullRom),
        key(10, 2),
        key(20, 3),
    ])
    .unwrap();
    interpolator.advance_by(10);
    match interpolator.value(None) {
        Err(InterpolatorError::InterpolationControlKeyError {
            interpolation_mode,
            keys_before,
            keys_after,
        }) => {
            assert_eq!(interpolation_mode, "CatmullRom");
            assert_eq!(keys_before, 2);
            assert_eq!(keys_after, 2);
        }
        _ => panic!("expected a control key error"),
    }
}

#[test]
fn motion_file_frames_follow_each_other() {
    let motion = MotionFile {
        initial_positions: 0,
        frames: vec![
            MotionFrame { duration: 10, positions: 1 },
            MotionFrame { duration: 20, positions: 2 },
        ],
    };
    let interpolator = SplineInterpolator::try_from(motion).unwrap();
    assert_eq!(
        times_and_values(&interpolator),
        vec![(-10, 1), (0, 0), (10, 1), (30, 2), (50, 1)]
    );
    assert_eq!(interpolator.end_time(), 30);
}

#[test]
fn motion_file_without_frames_is_too_short() {
    let motion = MotionFile { initial_positions: 0, frames: vec![] };
    assert!(matches!(
        SplineInterpolator::try_from(motion),
        Err(InterpolatorError::TooFewKeysError)
    ));
}

#[test]
fn supported_modes_map_to_themselves() {
    assert!(matches!(
        Interpolation::<i32>::Cosine.map_argument(),
        Ok(Interpolation::Cosine)
    ));
    match Interpolation::Bezier(3).map_argument() {
        Err(InterpolatorError::UnsupportedInterpolationMode { interpolation_mode }) => {
            assert!(matches!(interpolation_mode, Interpolation::Bezier(3)))
        }
        _ => panic!("expected an unsupported mode"),
    }
}

#[test]
fn stroke_bezier_is_handed_back_with_its_controls() {
    let keys = vec![key(0, 1), Key::new(10, 2, Interpolation::StrokeBezier(7, 8))];
    match SplineInterpolator::try_new(keys) {
        Err(InterpolatorError::UnsupportedInterpolationMode { interpolation_mode }) => {
            assert!(matches!(interpolation_mode, Interpolation::StrokeBezier(7, 8)))
        }
        _ => panic!("expected an unsupported mode"),
    }
}

#[test]
fn advancing_keeps_the_keys_and_adds_the_step() {
    let mut interpolator = SplineInterpolator::try_new(vec![key(0, 1), key(100, 2)]).unwrap();
    let before = times_and_values(&interpolator);
    interpolator.advance_by(30);
    interpolator.advance_by(45);
    assert_eq!(interpolator.current_time(), 75);
    assert_eq!(interpolator.end_time(), 100);
    assert_eq!(times_and_values(&interpolator), before);
    interpolator.advance_by(500);
    assert_eq!(interpolator.current_time(), 575);
    interpolator.reset();
    interpolator.reset();
    assert_eq!(interpolator.current_time(), 0);
    assert_eq!(times_and_values(&interpolator), before);
}
