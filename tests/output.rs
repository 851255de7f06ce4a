use fan_control::{encode_decimal, FanConfig, FanController, SpeedCurve};

fn controller(max_allowed_speed: u32) -> FanController {
    let config = FanConfig {
        max_allowed_speed,
        always_full_speed: false,
        low_temp: 40,
        high_temp: 80,
        speed_curve: SpeedCurve::Linear,
    };
    FanController::new(config, 20, 100)
}

#[test]
fn set_speed_clamps_to_hardware_bounds() {
    let mut c = controller(1000);
    assert_eq!(c.set_speed(0), b"20".to_vec());
    assert_eq!(c.set_speed(19), b"20".to_vec());
    assert_eq!(c.set_speed(55), b"55".to_vec());
    assert_eq!(c.set_speed(101), b"100".to_vec());
    assert_eq!(c.set_speed(u32::MAX), b"100".to_vec());
}

#[test]
fn set_speed_applies_ceiling_last() {
    let mut c = controller(50);
    assert_eq!(c.set_speed(75), b"50".to_vec());
    assert_eq!(c.clamp_speed(75), 50);
    let mut low = controller(10);
    // the ceiling is one-sided and may go below the hardware minimum
    assert_eq!(low.set_speed(0), b"10".to_vec());
}

#[test]
fn written_speed_within_bounds() {
    for cap in [20u32, 60, 100, 1000] {
        let c = controller(cap);
        for speed in (0u32..300).chain([u32::MAX - 1, u32::MAX]) {
            let v = c.clamp_speed(speed);
            assert!(20 <= v && v <= 100 && v <= cap);
        }
    }
}

#[test]
fn set_speed_twice_writes_the_same() {
    let mut c = controller(90);
    let before = c;
    for speed in [0u32, 42, 95, 1 << 31] {
        let first = c.set_speed(speed);
        let second = c.set_speed(speed);
        assert_eq!(first, second);
        assert_eq!(c, before);
        let v = c.clamp_speed(speed);
        assert_eq!(c.clamp_speed(v), v);
    }
}

#[test]
fn manual_switch_bytes() {
    let c = controller(100);
    assert_eq!(c.set_manual(true), b'1');
    assert_eq!(c.set_manual(false), b'0');
}

#[test]
fn decimal_encoding() {
    assert_eq!(encode_decimal(0), b"0".to_vec());
    assert_eq!(encode_decimal(7), b"7".to_vec());
    assert_eq!(encode_decimal(10), b"10".to_vec());
    assert_eq!(encode_decimal(1234567890), b"1234567890".to_vec());
    assert_eq!(encode_decimal(u32::MAX), u32::MAX.to_string().into_bytes());
}
