use hexgame::camera::{pan_axes, rotation_active, CameraController, MovementKeys, PanAxes};

fn keys(forward: bool, left: bool, back: bool, right: bool) -> MovementKeys {
    MovementKeys { forward, left, back, right }
}

#[test]
fn camera_defaults() {
    let c = CameraController::default();
    assert_eq!(c.sensitivity, 100);
    assert_eq!(c.zoom_sensitivity, 100);
    assert_eq!(c.distance, 20_000);
    assert_eq!(c.min_distance, 5_000);
    assert_eq!(c.max_distance, 100_000);
    assert_eq!(c.pan_speed, 10_000);
}

#[test]
fn zoom_in_exact() {
    let mut c = CameraController::new();
    // Three lines of scroll at sensitivity 0.1: 20.0 - 0.3 = 19.7.
    c.apply_zoom(3_000);
    assert_eq!(c.distance, 19_700);
    c.apply_zoom(-1_000);
    assert_eq!(c.distance, 19_800);
}

#[test]
fn zoom_rounds_toward_zero() {
    let mut c = CameraController::new();
    c.apply_zoom(15); // 15 * 100 / 1000 = 1.5, rounded to 1
    assert_eq!(c.distance, 19_999);
    c.apply_zoom(-15);
    assert_eq!(c.distance, 20_000);
}

#[test]
fn zoom_clamps_to_bounds() {
    let mut c = CameraController::new();
    c.apply_zoom(1_000_000);
    assert_eq!(c.distance, 5_000);
    c.apply_zoom(1_000_000);
    assert_eq!(c.distance, 5_000);
    c.apply_zoom(-10_000_000);
    assert_eq!(c.distance, 100_000);
    c.apply_zoom(i64::MIN);
    assert_eq!(c.distance, 100_000);
    c.apply_zoom(i64::MAX);
    assert_eq!(c.distance, 5_000);
}

#[test]
fn zoom_sequence_stays_in_bounds() {
    let mut c = CameraController::new();
    let inputs = [400_000i64, -3, -900_000, 77, 5_000, -123_456, 1_000_000_000, 0];
    for s in inputs {
        c.apply_zoom(s);
        assert!(c.distance >= c.min_distance && c.distance <= c.max_distance);
    }
}

#[test]
fn pan_no_keys_is_zero() {
    assert_eq!(pan_axes(keys(false, false, false, false)), PanAxes { forward: 0, right: 0 });
}

#[test]
fn pan_single_and_diagonal() {
    assert_eq!(pan_axes(keys(true, false, false, false)), PanAxes { forward: 1, right: 0 });
    assert_eq!(pan_axes(keys(false, true, false, false)), PanAxes { forward: 0, right: -1 });
    assert_eq!(pan_axes(keys(false, false, true, false)), PanAxes { forward: -1, right: 0 });
    assert_eq!(pan_axes(keys(false, false, false, true)), PanAxes { forward: 0, right: 1 });
    assert_eq!(pan_axes(keys(true, false, false, true)), PanAxes { forward: 1, right: 1 });
    assert_eq!(pan_axes(keys(true, true, true, false)), PanAxes { forward: 0, right: -1 });
}

#[test]
fn pan_unit_length_after_normalising() {
    for bits in 0..16u32 {
        let k = keys(bits & 1 != 0, bits & 2 != 0, bits & 4 != 0, bits & 8 != 0);
        let a = pan_axes(k);
        let len_sq = (a.forward as f64).powi(2) + (a.right as f64).powi(2);
        if bits == 0 {
            assert_eq!(len_sq, 0.0);
        } else if len_sq > 0.0 {
            let n = len_sq.sqrt();
            let unit = (a.forward as f64 / n).powi(2) + (a.right as f64 / n).powi(2);
            assert!((unit - 1.0).abs() < 1e-12);
        }
    }
}

#[test]
fn pan_opposing_keys_cancel() {
    assert_eq!(pan_axes(keys(true, false, true, false)), PanAxes { forward: 0, right: 0 });
    assert_eq!(pan_axes(keys(true, true, true, true)), PanAxes { forward: 0, right: 0 });
}

#[test]
fn rotation_needs_both_inputs() {
    assert!(rotation_active(true, true));
    assert!(!rotation_active(true, false));
    assert!(!rotation_active(false, true));
    assert!(!rotation_active(false, false));
}
