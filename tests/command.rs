use tiger_car_ros::command::{clamp_command, dead_zone_duty, plan_duties, DutyPair, FULL_SCALE};

#[test]
fn clamp_keeps_values_in_range() {
    assert_eq!(clamp_command(0), 0);
    assert_eq!(clamp_command(-250_000), -250_000);
    assert_eq!(clamp_command(FULL_SCALE), FULL_SCALE);
    assert_eq!(clamp_command(2_000_000), FULL_SCALE);
    assert_eq!(clamp_command(-5_000_000), -FULL_SCALE);
    assert_eq!(clamp_command(i32::MIN), -FULL_SCALE);
}

#[test]
fn half_command_above_dead_zone() {
    let p = plan_duties(200_000, 500_000);
    assert_eq!(p, DutyPair { a: 0, b: 600_000 });
}

#[test]
fn zero_command_is_true_off() {
    assert_eq!(plan_duties(200_000, 0), DutyPair { a: 0, b: 0 });
    assert_eq!(plan_duties(FULL_SCALE as u32, 0), DutyPair { a: 0, b: 0 });
}

#[test]
fn positive_command_drives_channel_b() {
    assert_eq!(plan_duties(150_000, 250_000), DutyPair { a: 0, b: 362_500 });
    assert_eq!(plan_duties(0, 250_000), DutyPair { a: 0, b: 250_000 });
}

#[test]
fn negative_command_drives_channel_a() {
    assert_eq!(plan_duties(200_000, -500_000), DutyPair { a: 600_000, b: 0 });
    assert_eq!(plan_duties(150_000, -FULL_SCALE), DutyPair { a: 1_000_000, b: 0 });
}

#[test]
fn over_range_commands_clamp() {
    assert_eq!(plan_duties(200_000, 2_000_000), plan_duties(200_000, 1_000_000));
    assert_eq!(plan_duties(200_000, -5_000_000), plan_duties(200_000, -1_000_000));
    assert_eq!(plan_duties(200_000, 2_000_000), DutyPair { a: 0, b: 1_000_000 });
    assert_eq!(plan_duties(200_000, -5_000_000), DutyPair { a: 1_000_000, b: 0 });
}

#[test]
fn smallest_command_clears_dead_zone() {
    assert_eq!(dead_zone_duty(150_000, 1), 150_000);
    assert_eq!(dead_zone_duty(0, 1), 1);
    assert_eq!(plan_duties(0, 1), DutyPair { a: 0, b: 1 });
    assert_eq!(plan_duties(FULL_SCALE as u32, 1), DutyPair { a: 0, b: 1_000_000 });
}

#[test]
fn full_command_reaches_full_scale() {
    assert_eq!(dead_zone_duty(150_000, FULL_SCALE), 1_000_000);
    assert_eq!(dead_zone_duty(0, FULL_SCALE), 1_000_000);
}
