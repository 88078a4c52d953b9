use lumicontrol::control::SensorCurvePoint;
use lumicontrol::dashboard::{curves_equal, pop_sensor_curve_history, remember_sensor_curve_history};
use lumicontrol::float_bits::F64Bits;

fn curve(brightness: i32) -> Vec<SensorCurvePoint> {
    vec![
        SensorCurvePoint { lux: F64Bits { bits: 10.0f64.to_bits() }, brightness },
        SensorCurvePoint { lux: F64Bits { bits: 100.0f64.to_bits() }, brightness: 80 },
    ]
}

#[test]
fn curve_history_keeps_the_last_three_distinct_curves() {
    let mut history = Vec::new();
    remember_sensor_curve_history(&mut history, curve(10));
    remember_sensor_curve_history(&mut history, curve(10));
    assert_eq!(history.len(), 1);
    for b in [20, 30, 40] {
        remember_sensor_curve_history(&mut history, curve(b));
    }
    assert_eq!(history.len(), 3);
    assert_eq!(history[0][0].brightness, 20);
    assert_eq!(history[2][0].brightness, 40);
    let last = pop_sensor_curve_history(&mut history).unwrap();
    assert_eq!(last[0].brightness, 40);
    assert_eq!(history.len(), 2);
}

#[test]
fn negative_zero_lux_equals_zero_lux() {
    let a = vec![SensorCurvePoint { lux: F64Bits { bits: 0.0f64.to_bits() }, brightness: 5 }];
    let b = vec![SensorCurvePoint { lux: F64Bits { bits: (-0.0f64).to_bits() }, brightness: 5 }];
    assert!(curves_equal(&a, &b));
    let nan = vec![SensorCurvePoint { lux: F64Bits { bits: f64::NAN.to_bits() }, brightness: 5 }];
    assert!(!curves_equal(&nan, &nan));
}

#[test]
fn sensor_curve_history_keeps_three_revert_steps() {
    let mut history = Vec::new();
    for brightness in [40, 50, 60, 70] {
        remember_sensor_curve_history(
            &mut history,
            vec![SensorCurvePoint { lux: F64Bits { bits: (brightness as f64).to_bits() }, brightness }],
        );
    }

    assert_eq!(history.len(), 3);
    assert_eq!(history[0][0].brightness, 50);
    assert_eq!(pop_sensor_curve_history(&mut history).unwrap()[0].brightness, 70);
    assert_eq!(history.len(), 2);
}
