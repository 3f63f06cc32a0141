use imu_rust::report::{Quat, SensorReading, Vec3};
use imu_rust::sync::{bump_counter, try_build_frame, FrameMarkers, SensorState, ValueSlot};

const Q: Quat = Quat { w: 16384, i: 0, j: 0, k: 0 };
const G: Vec3 = Vec3 { x: 1, y: 2, z: 3 };
const A: Vec3 = Vec3 { x: 4, y: 5, z: 6 };
const L: Vec3 = Vec3 { x: 7, y: 8, z: 9 };

#[test]
fn no_frame_without_angular_rate() {
    let mut s = SensorState::new();
    s.store(1, SensorReading::Acceleration(A));
    s.store(2, SensorReading::Orientation(Q));
    let mut m = FrameMarkers::new();
    assert_eq!(try_build_frame(&s, &mut m), None);
    assert_eq!(m, FrameMarkers::new());
}

#[test]
fn no_frame_without_acceleration_source() {
    let mut s = SensorState::new();
    s.store(1, SensorReading::AngularRate(G));
    s.store(2, SensorReading::Orientation(Q));
    let mut m = FrameMarkers::new();
    assert_eq!(try_build_frame(&s, &mut m), None);
}

#[test]
fn frame_uses_fresher_acceleration_and_moves_markers() {
    let mut s = SensorState::new();
    s.store(1, SensorReading::LinearAcceleration(L));
    s.store(2, SensorReading::Acceleration(A));
    s.store(3, SensorReading::AngularRate(G));
    s.store(4, SensorReading::Orientation(Q));
    let mut m = FrameMarkers::new();
    let f = try_build_frame(&s, &mut m).unwrap();
    assert_eq!(f.accel, A);
    assert_eq!(f.gyro, G);
    assert_eq!(f.quat, Q);
    assert_eq!(m, FrameMarkers { quat: 4, gyro: 3, accel: 2 });
}

#[test]
fn tie_favours_linear_acceleration() {
    let mut s = SensorState::new();
    s.linear_accel = ValueSlot { value: Some(L), counter: 5 };
    s.accel = ValueSlot { value: Some(A), counter: 5 };
    assert_eq!(s.select_accel_slot(), Some((L, 5)));
}

#[test]
fn frames_never_repeat_a_sample() {
    let mut s = SensorState::new();
    let mut m = FrameMarkers::new();
    s.store(1, SensorReading::Acceleration(A));
    s.store(2, SensorReading::AngularRate(G));
    s.store(3, SensorReading::Orientation(Q));
    assert!(try_build_frame(&s, &mut m).is_some());
    // nothing new: no frame
    assert_eq!(try_build_frame(&s, &mut m), None);
    // only two of three components new: still no frame
    s.store(4, SensorReading::AngularRate(G));
    s.store(5, SensorReading::Orientation(Q));
    assert_eq!(try_build_frame(&s, &mut m), None);
    s.store(6, SensorReading::Acceleration(A));
    assert!(try_build_frame(&s, &mut m).is_some());
    assert_eq!(m, FrameMarkers { quat: 5, gyro: 4, accel: 6 });
}

#[test]
fn counter_wraps_to_one_never_zero() {
    assert_eq!(bump_counter(0), 1);
    assert_eq!(bump_counter(41), 42);
    assert_eq!(bump_counter(u64::MAX), 1);
}

#[test]
fn slots_update_and_clear() {
    let mut slot: ValueSlot<Vec3> = ValueSlot::empty();
    slot.update(A, 9);
    assert_eq!(slot.value, Some(A));
    assert_eq!(slot.counter, 9);
    slot.clear();
    assert_eq!(slot.value, None);
    assert_eq!(slot.counter, 0);
}
