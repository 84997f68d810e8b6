use axact::fan::liquidctl_modify_fan_speed;

// Driving sensor is the CPU (70/55 > 50/65); 70 is above 55 + 5, so the
// speed rises one step from the floor.
#[test]
fn hot_cpu_raises_speed_from_floor() {
    assert_eq!(liquidctl_modify_fan_speed(70, 50, 20), 24);
}

// CPU driving at 40 <= 55: a decrease step, clamped at the floor.
#[test]
fn cool_cpu_lowers_speed_to_floor() {
    assert_eq!(liquidctl_modify_fan_speed(40, 40, 24), 20);
}

#[test]
fn at_floor_stays_at_floor_when_cool() {
    assert_eq!(liquidctl_modify_fan_speed(40, 40, 20), 20);
}

// Inside the hysteresis band (55 < 58 <= 60) the speed is held.
#[test]
fn speed_held_inside_hysteresis_band() {
    assert_eq!(liquidctl_modify_fan_speed(58, 50, 40), 40);
}

// GPU ratio 80/65 beats CPU ratio 40/55 and 80 > 65 + 5: increase.
#[test]
fn hot_gpu_drives_increase() {
    assert_eq!(liquidctl_modify_fan_speed(40, 80, 40), 44);
}

// GPU inside its own band (65 < 68 <= 70) while the CPU is cool: hold.
#[test]
fn gpu_driving_inside_band_holds() {
    assert_eq!(liquidctl_modify_fan_speed(30, 68, 40), 40);
}

// Equal ratios favor the CPU; at exactly the CPU target the speed drops.
#[test]
fn tied_ratios_decrease_at_target() {
    assert_eq!(liquidctl_modify_fan_speed(55, 65, 40), 36);
}

// The result never leaves [20, 70], whatever the previous speed was.
#[test]
fn result_clamped_to_valid_range() {
    assert_eq!(liquidctl_modify_fan_speed(100, 100, 70), 70);
    assert_eq!(liquidctl_modify_fan_speed(100, 100, 68), 70);
    assert_eq!(liquidctl_modify_fan_speed(0, 0, 22), 20);
    assert_eq!(liquidctl_modify_fan_speed(0, 0, 100), 70);
    assert_eq!(liquidctl_modify_fan_speed(100, 100, 0), 20);
    for last in 20..=70 {
        let next = liquidctl_modify_fan_speed(63, 48, last);
        assert!((20..=70).contains(&next));
    }
}

// With the driving temperature exactly at its target, repeated evaluation
// walks the speed down to the floor and then holds it there.
#[test]
fn repeated_evaluation_settles_at_minimum() {
    let mut speed = 70;
    let mut steps = 0;
    while speed > 20 {
        let next = liquidctl_modify_fan_speed(55, 50, speed);
        assert!(next < speed);
        speed = next;
        steps += 1;
        assert!(steps <= 50);
    }
    assert_eq!(speed, 20);
    assert_eq!(liquidctl_modify_fan_speed(55, 50, 20), 20);
    assert_eq!(liquidctl_modify_fan_speed(55, 50, 20), 20);
}
