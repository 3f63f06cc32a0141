use vstd::prelude::*;

verus! {

pub const SENSOR_REPORTID_ACCELEROMETER: u8 = 0x01;

pub const SENSOR_REPORTID_GYRO_CALIBRATED: u8 = 0x02;

pub const SENSOR_REPORTID_LINEAR_ACCELERATION: u8 = 0x04;

pub const SENSOR_REPORTID_ROTATION_VECTOR: u8 = 0x05;

pub const SENSOR_REPORTID_GAME_ROTATION_VECTOR: u8 = 0x08;

/// Offset of the first sub-report in a sensor-reports packet: the packet
/// header and the five-byte report wrapper with its reference time.
pub const SENSOR_REPORTS_START: usize = 9;

/// Fractional bits of acceleration values (Q8: one unit is 1/256).
pub const Q8_FRAC_BITS: u32 = 8;

/// Fractional bits of angular-rate values (Q9: one unit is 1/512).
pub const Q9_FRAC_BITS: u32 = 9;

/// Fractional bits of quaternion components (Q14: one unit is 1/16384).
pub const Q14_FRAC_BITS: u32 = 14;

/// A three-axis sample in raw fixed point.
#[derive(Clone, Copy, Debug, PartialEq, Eq, Structural)]
pub struct Vec3 {
    pub x: i16,
    pub y: i16,
    pub z: i16,
}

/// An orientation quaternion in raw Q14 fixed point.
#[derive(Clone, Copy, Debug, PartialEq, Eq, Structural)]
pub struct Quat {
    pub w: i16,
    pub i: i16,
    pub j: i16,
    pub k: i16,
}

/// One decoded sub-report of a sensor-reports packet.
#[derive(Clone, Copy, Debug, PartialEq, Eq, Structural)]
pub enum SensorReading {
    /// Plain or game rotation vector (Q14).
    Orientation(Quat),
    /// Linear acceleration (Q8).
    LinearAcceleration(Vec3),
    /// Raw acceleration (Q8).
    Acceleration(Vec3),
    /// Calibrated angular rate (Q9).
    AngularRate(Vec3),
}

/// The signed 16-bit value whose little-endian bytes are `lo`, `hi`.
pub open spec fn le_i16(lo: u8, hi: u8) -> i16 {
    if hi < 128 {
        (lo as int + hi as int * 256) as i16
    } else {
        (lo as int + hi as int * 256 - 65536) as i16
    }
}

/// The signed 16-bit value stored little-endian at `at`.
pub open spec fn i16_at(p: Seq<u8>, at: int) -> i16 {
    le_i16(p[at], p[at + 1])
}

pub open spec fn vec3_at(p: Seq<u8>, at: int) -> Vec3 {
    Vec3 { x: i16_at(p, at), y: i16_at(p, at + 2), z: i16_at(p, at + 4) }
}

/// The quaternion stored as (i, j, k, real) at `at`.
pub open spec fn quat_at(p: Seq<u8>, at: int) -> Quat {
    Quat { w: i16_at(p, at + 6), i: i16_at(p, at), j: i16_at(p, at + 2), k: i16_at(p, at + 4) }
}

pub open spec fn is_orientation_id(id: u8) -> bool {
    id == SENSOR_REPORTID_GAME_ROTATION_VECTOR || id == SENSOR_REPORTID_ROTATION_VECTOR
}

pub open spec fn is_vector_id(id: u8) -> bool {
    id == SENSOR_REPORTID_LINEAR_ACCELERATION || id == SENSOR_REPORTID_ACCELEROMETER
        || id == SENSOR_REPORTID_GYRO_CALIBRATED
}

/// The vector reading that a sub-report of type `id` carries.
pub open spec fn vector_reading(id: u8, v: Vec3) -> SensorReading {
    if id == SENSOR_REPORTID_LINEAR_ACCELERATION {
        SensorReading::LinearAcceleration(v)
    } else if id == SENSOR_REPORTID_ACCELEROMETER {
        SensorReading::Acceleration(v)
    } else {
        SensorReading::AngularRate(v)
    }
}

/// The sub-reports decoded from `p` starting at `cursor`. Decoding stops
/// where a sub-report's header or fields would run past the end of `p`;
/// a sub-report of an unknown type is skipped over its four header bytes.
/// The two-byte accuracy field after a quaternion is consumed when present.
pub open spec fn readings_from(p: Seq<u8>, cursor: nat) -> Seq<SensorReading>
    decreases p.len() - cursor,
{
    if cursor + 4 > p.len() {
        seq![]
    } else {
        let id = p[cursor as int];
        let fields = cursor + 4;
        if is_orientation_id(id) {
            if p.len() - fields < 8 {
                seq![]
            } else {
                let next: nat = if fields + 10 <= p.len() { fields + 10 } else { fields + 8 };
                seq![SensorReading::Orientation(quat_at(p, fields as int))] + readings_from(p, next)
            }
        } else if is_vector_id(id) {
            if p.len() - fields < 6 {
                seq![]
            } else {
                seq![vector_reading(id, vec3_at(p, fields as int))] + readings_from(p, fields + 6)
            }
        } else {
            readings_from(p, fields)
        }
    }
}

/// The sub-reports of a whole received sensor-reports packet `p`
/// (header included).
pub open spec fn sensor_readings(p: Seq<u8>) -> Seq<SensorReading> {
    if p.len() <= SENSOR_REPORTS_START {
        seq![]
    } else {
        readings_from(p, SENSOR_REPORTS_START as nat)
    }
}

/// Reads the little-endian signed 16-bit value at `at`.
fn read_i16(p: &[u8], at: usize) -> (r: i16)
    requires
        at + 2 <= p@.len(),
    ensures
        r == i16_at(p@, at as int),
{
    let lo = p[at];
    let hi = p[at + 1];
    if hi < 128 {
        (lo as i16) + (hi as i16) * 256
    } else {
        ((hi as i16) - 256) * 256 + (lo as i16)
    }
}

fn read_vec3(p: &[u8], at: usize) -> (r: Vec3)
    requires
        at + 6 <= p@.len(),
        at <= usize::MAX - 6,
    ensures
        r == vec3_at(p@, at as int),
{
    Vec3 { x: read_i16(p, at), y: read_i16(p, at + 2), z: read_i16(p, at + 4) }
}

/// Decodes every complete sub-report of a received sensor-reports packet
/// (header included), in packet order. A truncated sub-report ends the
/// decoding without error; the sub-reports before it are kept.
pub fn decode_sensor_reports(packet: &[u8]) -> (r: Vec<SensorReading>)
    ensures
        r@ == sensor_readings(packet@),
{
    let mut out: Vec<SensorReading> = Vec::new();
    let len = packet.len();
    if len <= SENSOR_REPORTS_START {
        return out;
    }
    let mut cursor: usize = SENSOR_REPORTS_START;
    while cursor < len
        invariant
            len == packet@.len(),
            SENSOR_REPORTS_START <= cursor,
            out@ + readings_from(packet@, cursor as nat) == sensor_readings(packet@),
        ensures
            out@ == sensor_readings(packet@),
        decreases len - cursor,
    {
        if len - cursor < 4 {
            assert(out@ =~= out@ + readings_from(packet@, cursor as nat));
            break;
        }
        let id = packet[cursor];
        let fields = cursor + 4;
        let remaining = len - fields;
        if id == SENSOR_REPORTID_GAME_ROTATION_VECTOR || id == SENSOR_REPORTID_ROTATION_VECTOR {
            if remaining < 8 {
                assert(out@ =~= out@ + readings_from(packet@, cursor as nat));
                break;
            }
            let q = Quat {
                i: read_i16(packet, fields),
                j: read_i16(packet, fields + 2),
                k: read_i16(packet, fields + 4),
                w: read_i16(packet, fields + 6),
            };
            let mut next = fields + 8;
            if remaining >= 10 {
                next = fields + 10;
            }
            let ghost before = out@;
            out.push(SensorReading::Orientation(q));
            assert(out@ + readings_from(packet@, next as nat) =~= before + readings_from(packet@, cursor as nat));
            cursor = next;
        } else if id == SENSOR_REPORTID_LINEAR_ACCELERATION || id == SENSOR_REPORTID_ACCELEROMETER
            || id == SENSOR_REPORTID_GYRO_CALIBRATED {
            if remaining < 6 {
                assert(out@ =~= out@ + readings_from(packet@, cursor as nat));
                break;
            }
            let v = read_vec3(packet, fields);
            let reading = if id == SENSOR_REPORTID_LINEAR_ACCELERATION {
                SensorReading::LinearAcceleration(v)
            } else if id == SENSOR_REPORTID_ACCELEROMETER {
                SensorReading::Acceleration(v)
            } else {
                SensorReading::AngularRate(v)
            };
            let ghost before = out@;
            out.push(reading);
            assert(out@ + readings_from(packet@, (fields + 6) as nat) =~= before + readings_from(packet@, cursor as nat));
            cursor = fields + 6;
        } else {
            cursor = fields;
        }
    }
    out
}

proof fn lemma_readings_prefix(p: Seq<u8>, q: Seq<u8>, cursor: nat)
    requires
        p.len() <= q.len(),
        p =~= q.subrange(0, p.len() as int),
    ensures
        readings_from(p, cursor).is_prefix_of(readings_from(q, cursor)),
    decreases p.len() - cursor,
{
    if cursor + 4 > p.len() {
        assert(readings_from(p, cursor) =~= seq![]);
    } else {
        let id = p[cursor as int];
        let fields = cursor + 4;
        assert(q[cursor as int] == id);
        if is_orientation_id(id) {
            if p.len() - fields >= 8 {
                assert(quat_at(p, fields as int) == quat_at(q, fields as int));
                let np: nat = if fields + 10 <= p.len() { fields + 10 } else { fields + 8 };
                let nq: nat = if fields + 10 <= q.len() { fields + 10 } else { fields + 8 };
                lemma_readings_prefix(p, q, np);
                if np != nq {
                    assert(readings_from(p, np) =~= seq![]);
                }
                let head = seq![SensorReading::Orientation(quat_at(p, fields as int))];
                assert(readings_from(p, cursor) == head + readings_from(p, np));
                assert(readings_from(q, cursor) == head + readings_from(q, nq));
            }
        } else if is_vector_id(id) {
            if p.len() - fields >= 6 {
                assert(vec3_at(p, fields as int) == vec3_at(q, fields as int));
                lemma_readings_prefix(p, q, fields + 6);
            }
        } else {
            lemma_readings_prefix(p, q, fields);
        }
    }
}

/// Cutting a packet short never changes the sub-reports decoded before the
/// cut: what a truncated packet yields is a prefix of what the whole packet
/// yields.
pub proof fn lemma_truncation_keeps_decoded(p: Seq<u8>, q: Seq<u8>)
    requires
        p.len() <= q.len(),
        p =~= q.subrange(0, p.len() as int),
    ensures
        sensor_readings(p).is_prefix_of(sensor_readings(q)),
{
    if p.len() > SENSOR_REPORTS_START {
        lemma_readings_prefix(p, q, SENSOR_REPORTS_START as nat);
    }
}

} // verus!
