use jetson_fan_ctl::config::Config;
use jetson_fan_ctl::fan::{FanState, CONTROL_PATH, INITIAL_DUTY};

#[test]
fn new_fan_is_forced_to_zero() {
    let (fan, write) = FanState::new();
    assert_eq!(write, Some(0));
    assert_eq!(fan.current_speed(), 0);
    assert_eq!(INITIAL_DUTY, 0);
}

#[test]
fn set_twice_writes_once() {
    for x in [1u8, 127, 255] {
        let (mut fan, _) = FanState::new();
        let first = fan.set(x);
        let second = fan.set(x);
        assert_eq!(first, Some(x));
        assert_eq!(second, None);
        assert_eq!(fan.current_speed(), x);
    }
}

#[test]
fn set_to_what_the_fan_holds_writes_nothing() {
    let (mut fan, _) = FanState::new();
    assert_eq!(fan.set(0), None);
    assert_eq!(fan.set(0), None);
    assert_eq!(fan.current_speed(), 0);
}

#[test]
fn set_writes_each_change() {
    let (mut fan, _) = FanState::new();
    assert_eq!(fan.set(10), Some(10));
    assert_eq!(fan.set(20), Some(20));
    assert_eq!(fan.set(10), Some(10));
    assert_eq!(fan.set(255), Some(255));
    assert_eq!(fan.set(255), None);
    assert_eq!(fan.set(0), Some(0));
}

#[test]
fn loop_writes_only_changes() {
    let conf = Config::default();
    let (mut fan, first) = FanState::new();
    let mut writes = vec![first];
    for temp in [20, 30, 45, 60, 70] {
        writes.push(fan.set(conf.get_fancurve(temp)));
    }
    assert_eq!(writes, vec![Some(0), None, None, Some(127), Some(255), None]);
}

#[test]
fn control_path_is_the_pwm_target() {
    assert_eq!(CONTROL_PATH, "/sys/devices/pwm-fan/target_pwm");
}
