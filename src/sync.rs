use vstd::prelude::*;
use crate::report::{Quat, SensorReading, Vec3};

verus! {

/// The latest value of one measurement kind and the decode-order counter
/// that it arrived with.
#[derive(Clone, Copy, Debug)]
pub struct ValueSlot<T> {
    pub value: Option<T>,
    pub counter: u64,
}

impl<T> ValueSlot<T> {
    /// A slot that holds nothing.
    pub fn empty() -> (r: Self)
        ensures
            r.value is None,
            r.counter == 0,
    {
        ValueSlot { value: None, counter: 0 }
    }

    /// Stores `value`, stamped with `counter`.
    pub fn update(&mut self, value: T, counter: u64)
        ensures
            final(self).value == Some(value),
            final(self).counter == counter,
    {
        self.value = Some(value);
        self.counter = counter;
    }

    /// Forgets the stored value.
    pub fn clear(&mut self)
        ensures
            final(self).value is None,
            final(self).counter == 0,
    {
        self.value = None;
        self.counter = 0;
    }
}

/// Latest measurements, handshake flags and device diagnostics.
#[derive(Clone, Copy, Debug)]
pub struct SensorState {
    pub accel: ValueSlot<Vec3>,
    pub linear_accel: ValueSlot<Vec3>,
    pub gyro: ValueSlot<Vec3>,
    pub quat: ValueSlot<Quat>,
    pub advert_received: bool,
    pub init_received: bool,
    pub prod_id_verified: bool,
    pub last_error: Option<u8>,
    pub pending_reset: bool,
}

pub open spec fn empty_slot<T>() -> ValueSlot<T> {
    ValueSlot { value: None, counter: 0 }
}

/// The state right after bring-up starts: nothing measured, no flag set.
pub open spec fn initial_state() -> SensorState {
    SensorState {
        accel: empty_slot(),
        linear_accel: empty_slot(),
        gyro: empty_slot(),
        quat: empty_slot(),
        advert_received: false,
        init_received: false,
        prod_id_verified: false,
        last_error: None,
        pending_reset: false,
    }
}

/// `s` with all four measurement slots emptied; flags kept.
pub open spec fn without_measurements(s: SensorState) -> SensorState {
    SensorState {
        accel: empty_slot(),
        linear_accel: empty_slot(),
        gyro: empty_slot(),
        quat: empty_slot(),
        ..s
    }
}

impl SensorState {
    pub fn new() -> (r: Self)
        ensures
            r == initial_state(),
    {
        SensorState {
            accel: ValueSlot::empty(),
            linear_accel: ValueSlot::empty(),
            gyro: ValueSlot::empty(),
            quat: ValueSlot::empty(),
            advert_received: false,
            init_received: false,
            prod_id_verified: false,
            last_error: None,
            pending_reset: false,
        }
    }

    /// Empties the four measurement slots.
    pub fn clear_measurements(&mut self)
        ensures
            *final(self) == without_measurements(*old(self)),
    {
        self.accel.clear();
        self.linear_accel.clear();
        self.gyro.clear();
        self.quat.clear();
    }

    /// The acceleration source for the next frame and its counter.
    pub fn select_accel_slot(&self) -> (r: Option<(Vec3, u64)>)
        ensures
            r == select_accel(*self),
    {
        match (self.linear_accel.value, self.accel.value) {
            (Some(lin), Some(acc)) => {
                if self.linear_accel.counter >= self.accel.counter {
                    Some((lin, self.linear_accel.counter))
                } else {
                    Some((acc, self.accel.counter))
                }
            },
            (Some(lin), None) => Some((lin, self.linear_accel.counter)),
            (None, Some(acc)) => Some((acc, self.accel.counter)),
            (None, None) => None,
        }
    }
}

/// The freshness counters that the last emitted frame was built from.
#[derive(Clone, Copy, Debug, PartialEq, Eq, Structural)]
pub struct FrameMarkers {
    pub quat: u64,
    pub gyro: u64,
    pub accel: u64,
}

impl FrameMarkers {
    pub fn new() -> (r: Self)
        ensures
            r == (FrameMarkers { quat: 0, gyro: 0, accel: 0 }),
    {
        FrameMarkers { quat: 0, gyro: 0, accel: 0 }
    }
}

/// One synchronized output sample in raw fixed point: acceleration (Q8),
/// angular rate (Q9) and orientation (Q14).
#[derive(Clone, Copy, Debug, PartialEq, Eq, Structural)]
pub struct Frame {
    pub accel: Vec3,
    pub gyro: Vec3,
    pub quat: Quat,
}

/// The acceleration source: the fresher of linear and raw acceleration
/// (linear on a tie), or the one that is present.
pub open spec fn select_accel(s: SensorState) -> Option<(Vec3, u64)> {
    match (s.linear_accel.value, s.accel.value) {
        (Some(lin), Some(acc)) => if s.linear_accel.counter >= s.accel.counter {
            Some((lin, s.linear_accel.counter))
        } else {
            Some((acc, s.accel.counter))
        },
        (Some(lin), None) => Some((lin, s.linear_accel.counter)),
        (None, Some(acc)) => Some((acc, s.accel.counter)),
        (None, None) => None,
    }
}

/// The frame that `s` yields after the frame marked by `m`, with the new
/// markers: only when orientation, angular rate and an acceleration source
/// are all present and each is newer than its marker.
pub open spec fn build_frame(s: SensorState, m: FrameMarkers) -> Option<(Frame, FrameMarkers)> {
    match (s.quat.value, s.gyro.value, select_accel(s)) {
        (Some(q), Some(g), Some((a, ac))) => if s.quat.counter > m.quat && s.gyro.counter > m.gyro
            && ac > m.accel {
            Some(
                (
                    Frame { accel: a, gyro: g, quat: q },
                    FrameMarkers { quat: s.quat.counter, gyro: s.gyro.counter, accel: ac },
                ),
            )
        } else {
            None
        },
        _ => None,
    }
}

/// Emits the next frame from `state` if `build_frame` yields one, and then
/// moves `markers` to that frame's counters; otherwise leaves them.
pub fn try_build_frame(state: &SensorState, markers: &mut FrameMarkers) -> (r: Option<Frame>)
    ensures
        build_frame(*state, *old(markers)) is None ==> r is None && *final(markers) == *old(markers),
        build_frame(*state, *old(markers)) matches Some((f, m)) ==> r == Some(f) && *final(markers) == m,
{
    let accel = state.select_accel_slot();
    match (state.quat.value, state.gyro.value, accel) {
        (Some(q), Some(g), Some((a, ac))) => {
            if state.quat.counter <= markers.quat || state.gyro.counter <= markers.gyro
                || ac <= markers.accel {
                return None;
            }
            markers.quat = state.quat.counter;
            markers.gyro = state.gyro.counter;
            markers.accel = ac;
            Some(Frame { accel: a, gyro: g, quat: q })
        },
        _ => None,
    }
}

/// Every emitted frame moves each marker strictly forward, so no frame
/// repeats a sample that an earlier frame used.
pub proof fn lemma_markers_strictly_increase(s: SensorState, m: FrameMarkers)
    ensures
        build_frame(s, m) matches Some((f, n)) ==> n.quat > m.quat && n.gyro > m.gyro && n.accel > m.accel,
{
}

/// Over any run of slot updates and frame attempts, the markers never move
/// back: a frame built after markers `m1` that were themselves reached from
/// `m0` by emitted frames uses counters above those of `m0`.
pub proof fn lemma_frames_never_repeat(s1: SensorState, s2: SensorState, m0: FrameMarkers)
    ensures
        build_frame(s1, m0) matches Some((f1, m1)) ==> (build_frame(s2, m1) matches Some((f2, m2)) ==>
            m2.quat > m1.quat && m2.gyro > m1.gyro && m2.accel > m1.accel && m2.quat > m0.quat
                && m2.gyro > m0.gyro && m2.accel > m0.accel),
{
}

/// Without an angular-rate sample no frame is built, whatever else is present.
pub proof fn lemma_no_frame_without_gyro(s: SensorState, m: FrameMarkers)
    requires
        s.gyro.value is None,
    ensures
        build_frame(s, m) is None,
{
}

/// The decode-order counter after `c`: wraps from the largest value to 1,
/// never to 0.
pub open spec fn next_counter(c: u64) -> u64 {
    if c == u64::MAX {
        1
    } else {
        (c + 1) as u64
    }
}

/// `s` with reading `r` stored in its slot under counter `c`.
pub open spec fn store_reading(s: SensorState, c: u64, r: SensorReading) -> SensorState {
    match r {
        SensorReading::Orientation(q) => SensorState { quat: ValueSlot { value: Some(q), counter: c }, ..s },
        SensorReading::LinearAcceleration(v) => SensorState {
            linear_accel: ValueSlot { value: Some(v), counter: c },
            ..s
        },
        SensorReading::Acceleration(v) => SensorState { accel: ValueSlot { value: Some(v), counter: c }, ..s },
        SensorReading::AngularRate(v) => SensorState { gyro: ValueSlot { value: Some(v), counter: c }, ..s },
    }
}

/// State and counter after storing `rs` in order, each under the next counter.
pub open spec fn store_readings(s: SensorState, c: u64, rs: Seq<SensorReading>) -> (SensorState, u64)
    decreases rs.len(),
{
    if rs.len() == 0 {
        (s, c)
    } else {
        store_readings(store_reading(s, next_counter(c), rs[0]), next_counter(c), rs.drop_first())
    }
}

/// Returns the decode-order counter after `c`.
pub fn bump_counter(c: u64) -> (r: u64)
    ensures
        r == next_counter(c),
        r != 0,
{
    let n = c.wrapping_add(1);
    if n == 0 {
        1
    } else {
        n
    }
}

impl SensorState {
    /// Stores one reading in its slot under counter `c`.
    pub fn store(&mut self, c: u64, r: SensorReading)
        ensures
            *final(self) == store_reading(*old(self), c, r),
    {
        match r {
            SensorReading::Orientation(q) => self.quat.update(q, c),
            SensorReading::LinearAcceleration(v) => self.linear_accel.update(v, c),
            SensorReading::Acceleration(v) => self.accel.update(v, c),
            SensorReading::AngularRate(v) => self.gyro.update(v, c),
        }
    }
}

} // verus!
