use imu_rust::report::{decode_sensor_reports, Quat, SensorReading, Vec3};

fn sensor_packet(subreports: &[u8]) -> Vec<u8> {
    let len = 9 + subreports.len();
    let mut p = vec![(len & 0xFF) as u8, (len >> 8) as u8, 3, 0, 0xFB, 0, 0, 0, 0];
    p.extend_from_slice(subreports);
    p
}

fn le(v: i16) -> [u8; 2] {
    v.to_le_bytes()
}

fn quat_report(id: u8, i: i16, j: i16, k: i16, real: i16, accuracy: bool) -> Vec<u8> {
    let mut r = vec![id, 0, 0, 0];
    for v in [i, j, k, real] {
        r.extend_from_slice(&le(v));
    }
    if accuracy {
        r.extend_from_slice(&[0x10, 0x00]);
    }
    r
}

fn vec_report(id: u8, x: i16, y: i16, z: i16) -> Vec<u8> {
    let mut r = vec![id, 0, 0, 0];
    for v in [x, y, z] {
        r.extend_from_slice(&le(v));
    }
    r
}

#[test]
fn quaternion_identity_decodes_to_unit_real_part() {
    let p = sensor_packet(&quat_report(0x08, 0, 0, 0, 16384, true));
    let r = decode_sensor_reports(&p);
    assert_eq!(r, vec![SensorReading::Orientation(Quat { w: 16384, i: 0, j: 0, k: 0 })]);
    if let SensorReading::Orientation(q) = r[0] {
        let scale = 1.0f32 / 16384.0;
        assert_eq!(q.w as f32 * scale, 1.0);
        assert_eq!(q.i as f32 * scale, 0.0);
        assert_eq!(q.j as f32 * scale, 0.0);
        assert_eq!(q.k as f32 * scale, 0.0);
    }
}

#[test]
fn q8_and_q9_units_decode_to_one() {
    let mut subs = vec_report(0x01, 256, 0, -256);
    subs.extend(vec_report(0x02, 512, 0, 0));
    let r = decode_sensor_reports(&sensor_packet(&subs));
    assert_eq!(
        r,
        vec![
            SensorReading::Acceleration(Vec3 { x: 256, y: 0, z: -256 }),
            SensorReading::AngularRate(Vec3 { x: 512, y: 0, z: 0 }),
        ]
    );
    if let SensorReading::Acceleration(a) = r[0] {
        assert_eq!(a.x as f32 / 256.0, 1.0);
        assert_eq!(a.z as f32 / 256.0, -1.0);
    }
    if let SensorReading::AngularRate(g) = r[1] {
        assert_eq!(g.x as f32 / 512.0, 1.0);
    }
}

#[test]
fn several_subreports_in_one_packet_in_order() {
    let mut subs = quat_report(0x05, 1, -2, 3, -4, true);
    subs.extend(vec_report(0x04, -32768, 32767, 7));
    subs.extend(vec_report(0x02, 10, 20, 30));
    let r = decode_sensor_reports(&sensor_packet(&subs));
    assert_eq!(
        r,
        vec![
            SensorReading::Orientation(Quat { w: -4, i: 1, j: -2, k: 3 }),
            SensorReading::LinearAcceleration(Vec3 { x: -32768, y: 32767, z: 7 }),
            SensorReading::AngularRate(Vec3 { x: 10, y: 20, z: 30 }),
        ]
    );
}

#[test]
fn truncated_subreport_keeps_earlier_ones() {
    let mut subs = vec_report(0x01, 1, 2, 3);
    let gyro = vec_report(0x02, 4, 5, 6);
    subs.extend_from_slice(&gyro[..7]);
    let r = decode_sensor_reports(&sensor_packet(&subs));
    assert_eq!(r, vec![SensorReading::Acceleration(Vec3 { x: 1, y: 2, z: 3 })]);
}

#[test]
fn quaternion_without_accuracy_field_is_decoded() {
    let p = sensor_packet(&quat_report(0x08, 5, 6, 7, 8, false));
    let r = decode_sensor_reports(&p);
    assert_eq!(r, vec![SensorReading::Orientation(Quat { w: 8, i: 5, j: 6, k: 7 })]);
}

#[test]
fn unknown_subreport_is_skipped_over_its_header() {
    let mut subs = vec![0x99, 0, 0, 0];
    subs.extend(vec_report(0x04, 9, 9, 9));
    let r = decode_sensor_reports(&sensor_packet(&subs));
    assert_eq!(r, vec![SensorReading::LinearAcceleration(Vec3 { x: 9, y: 9, z: 9 })]);
}

#[test]
fn packet_without_subreports_decodes_nothing() {
    assert!(decode_sensor_reports(&sensor_packet(&[])).is_empty());
    assert!(decode_sensor_reports(&[4, 0, 3, 0]).is_empty());
    assert!(decode_sensor_reports(&sensor_packet(&[0x01, 0, 0])).is_empty());
}
