
#[test]
fn map_scales_onto_wider_interval() {
    assert_eq!(tiger_car_ros::interval::map(6, (0, 10), (0, 100)), 60);
}

#[test]
fn map_shifts_onto_offset_interval() {
    assert_eq!(tiger_car_ros::interval::map(6, (0, 10), (10, 20)), 16);
}

#[test]
fn map_onto_narrower_interval() {
    assert_eq!(tiger_car_ros::interval::map(6, (0, 10), (5, 10)), 8);
}

#[test]
fn map_exact_at_endpoints() {
    assert_eq!(tiger_car_ros::interval::map(3, (3, 17), (-40, 250)), -40);
    assert_eq!(tiger_car_ros::interval::map(17, (3, 17), (-40, 250)), 250);
}

#[test]
fn map_exact_at_endpoints_of_reversed_interval() {
    assert_eq!(tiger_car_ros::interval::map(10, (10, 0), (7, -3)), 7);
    assert_eq!(tiger_car_ros::interval::map(0, (10, 0), (7, -3)), -3);
}

#[test]
fn map_rounds_down() {
    assert_eq!(tiger_car_ros::interval::map(1, (0, 3), (0, 1)), 0);
    assert_eq!(tiger_car_ros::interval::map(2, (0, 3), (0, 2)), 1);
    assert_eq!(tiger_car_ros::interval::map(-1, (0, 2), (0, 1)), -1);
    assert_eq!(tiger_car_ros::interval::map(1, (2, 0), (0, 1)), 0);
}

#[test]
fn map_does_not_clamp() {
    assert_eq!(tiger_car_ros::interval::map(20, (0, 10), (0, 100)), 200);
    assert_eq!(tiger_car_ros::interval::map(-5, (0, 10), (0, 100)), -50);
}

#[test]
fn map_on_full_scale_values() {
    assert_eq!(tiger_car_ros::interval::map(500_000, (0, 1_000_000), (200_000, 1_000_000)), 600_000);
    assert_eq!(tiger_car_ros::interval::map(i32::MAX, (0, i32::MAX), (i32::MIN, i32::MAX)), i32::MAX);
}
