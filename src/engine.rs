use vstd::prelude::*;
use crate::error::{ImuError, ProtocolFault};
use crate::packet::{
    after_send, encoded, ChannelSequences, CHANNEL_COMMAND, CHANNEL_EXECUTABLE, CHANNEL_HUB_CONTROL,
    CHANNEL_SENSOR_REPORTS, NUM_CHANNELS, PACKET_HEADER_LENGTH,
};
use crate::report::{
    decode_sensor_reports, lemma_truncation_keeps_decoded, sensor_readings, SensorReading, SENSOR_REPORTID_ACCELEROMETER,
    SENSOR_REPORTID_GAME_ROTATION_VECTOR, SENSOR_REPORTID_GYRO_CALIBRATED,
    SENSOR_REPORTID_LINEAR_ACCELERATION,
};
use crate::text::{decimal_of, with_decimal_suffix};
use crate::sync::{
    next_counter, store_reading,
    build_frame, bump_counter, initial_state, store_readings, try_build_frame, without_measurements,
    Frame, FrameMarkers, SensorState,
};

verus! {

pub const CMD_RESP_ADVERTISEMENT: u8 = 0x00;

pub const CMD_RESP_ERROR_LIST: u8 = 0x01;

pub const EXECUTABLE_DEVICE_CMD_RESET: u8 = 0x01;

pub const EXECUTABLE_DEVICE_RESP_RESET_COMPLETE: u8 = 0x01;

pub const SHUB_PROD_ID_REQ: u8 = 0xF9;

pub const SHUB_PROD_ID_RESP: u8 = 0xF8;

pub const SHUB_COMMAND_RESP: u8 = 0xF1;

pub const SHUB_REPORT_SET_FEATURE_CMD: u8 = 0xFD;

/// Response code of an unsolicited initialize (initialize command 0x04
/// with the unsolicited bit 0x80).
pub const SH2_STARTUP_INIT_UNSOLICITED: u8 = 0x84;

pub const SH2_INIT_SYSTEM: u8 = 0x01;

/// Settle time after transport setup, in milliseconds.
pub const SETUP_SETTLE_MS: u8 = 1;

/// Settle time after the soft reset before draining, in milliseconds.
pub const RESET_SETTLE_MS: u8 = 150;

/// Settle time before the second drain pass, in milliseconds.
pub const SECOND_DRAIN_SETTLE_MS: u8 = 50;

/// Reads allowed in the first and in the second drain pass.
pub const FIRST_DRAIN_READS: u16 = 200;

pub const SECOND_DRAIN_READS: u16 = 50;

/// Per-read timeout while draining, in milliseconds.
pub const DRAIN_READ_TIMEOUT_MS: u8 = 10;

/// Per-read timeout while waiting for the identity response.
pub const IDENTITY_READ_TIMEOUT_MS: u8 = 150;

/// Overall budget for the identity response, in milliseconds.
pub const IDENTITY_BUDGET_MS: u64 = 500;

/// What the driver is configured with.
#[derive(Clone, Copy, Debug, PartialEq, Eq, Structural)]
pub struct ImuConfig {
    pub bus: u8,
    pub address: u8,
    pub hz: u16,
}

/// The device node of an I2C bus.
pub open spec fn device_path_of(bus: u8) -> Seq<char> {
    "/dev/i2c-"@ + decimal_of(bus as nat)
}

impl ImuConfig {
    /// The path of the bus's device node.
    pub fn device_path(&self) -> (r: String)
        ensures
            r@ == device_path_of(self.bus),
    {
        with_decimal_suffix("/dev/i2c-", self.bus)
    }
}

/// Where the bring-up handshake stands.
#[derive(Clone, Copy, Debug, PartialEq, Eq, Structural)]
pub enum BringUpPhase {
    /// No bring-up running and none completed (or the last one failed).
    Idle,
    /// Engine state was reset; the transport is being set up.
    TransportReady,
    /// The reset command went out; its synchronous reply is awaited.
    SoftReset,
    /// Unsolicited packets are being drained; `first` tells the pass,
    /// `left` the reads still allowed in it.
    Draining { first: bool, left: u16 },
    /// The identity request went out; its response is awaited.
    IdentityPending,
    /// The device identity was verified.
    Ready,
}

/// What the caller has to do next during bring-up.
#[derive(Clone, Debug)]
pub enum BringUpAction {
    /// Run the transport's one-time setup, then wait `settle_ms`.
    SetupTransport { settle_ms: u8 },
    /// Write `packet` and read the reply that comes back at once.
    SendAndReceive { packet: Vec<u8> },
    /// Wait `settle_ms`, then read one packet with `timeout_ms`.
    Receive { settle_ms: u8, timeout_ms: u8 },
    /// Write `packet`, start the identity clock, read with `timeout_ms`.
    SendThenReceive { packet: Vec<u8>, timeout_ms: u8 },
    /// Bring-up is over.
    Finished,
}

/// `BringUpAction` with its packets as byte sequences.
pub enum ActionModel {
    SetupTransport { settle_ms: u8 },
    SendAndReceive { packet: Seq<u8> },
    Receive { settle_ms: u8, timeout_ms: u8 },
    SendThenReceive { packet: Seq<u8>, timeout_ms: u8 },
    Finished,
}

impl View for BringUpAction {
    type V = ActionModel;

    open spec fn view(&self) -> ActionModel {
        match self {
            BringUpAction::SetupTransport { settle_ms } => ActionModel::SetupTransport { settle_ms: *settle_ms },
            BringUpAction::SendAndReceive { packet } => ActionModel::SendAndReceive { packet: packet@ },
            BringUpAction::Receive { settle_ms, timeout_ms } => ActionModel::Receive {
                settle_ms: *settle_ms,
                timeout_ms: *timeout_ms,
            },
            BringUpAction::SendThenReceive { packet, timeout_ms } => ActionModel::SendThenReceive {
                packet: packet@,
                timeout_ms: *timeout_ms,
            },
            BringUpAction::Finished => ActionModel::Finished,
        }
    }
}

/// What the caller observed while carrying out the last action: the packet
/// read (empty when none came), and the milliseconds since the identity
/// request was written (zero before that). Once those exceed
/// `IDENTITY_BUDGET_MS` without the identity response, bring-up fails.
pub struct BringUpEvent {
    pub received: Vec<u8>,
    pub elapsed_ms: u64,
}

/// The engine's whole state as mathematical values.
pub struct ImuModel {
    pub config: ImuConfig,
    pub sequences: Seq<u8>,
    pub counter: u64,
    pub state: SensorState,
    pub markers: FrameMarkers,
    pub phase: BringUpPhase,
}

/// The protocol engine of one sensor hub: sequence counters, handshake
/// state, latest measurements and frame markers. It performs no I/O: the
/// caller moves the bytes it produces and hands it the bytes it reads.
pub struct Imu {
    config: ImuConfig,
    seqs: ChannelSequences,
    report_counter: u64,
    state: SensorState,
    last_frame: FrameMarkers,
    phase: BringUpPhase,
}

impl View for Imu {
    type V = ImuModel;

    closed spec fn view(&self) -> ImuModel {
        ImuModel {
            config: self.config,
            sequences: self.seqs@,
            counter: self.report_counter,
            state: self.state,
            markers: self.last_frame,
            phase: self.phase,
        }
    }
}

pub open spec fn model_wf(m: ImuModel) -> bool {
    &&& m.sequences.len() == NUM_CHANNELS
    &&& m.phase matches BringUpPhase::Draining { left, .. } ==> left > 0
}

/// The report id of a received packet: its fifth byte, or zero when it has
/// no body.
pub open spec fn report_id_of(p: Seq<u8>) -> u8 {
    if p.len() > 4 {
        p[4]
    } else {
        0
    }
}

pub open spec fn command_effect(s: SensorState, p: Seq<u8>) -> SensorState {
    let id = report_id_of(p);
    if id == CMD_RESP_ADVERTISEMENT {
        SensorState { advert_received: true, ..s }
    } else if id == CMD_RESP_ERROR_LIST && p.len() > 5 {
        SensorState { last_error: Some(p[5]), ..s }
    } else {
        s
    }
}

pub open spec fn exec_effect(s: SensorState, p: Seq<u8>) -> SensorState {
    if report_id_of(p) == EXECUTABLE_DEVICE_RESP_RESET_COMPLETE {
        SensorState { pending_reset: true, ..s }
    } else {
        s
    }
}

pub open spec fn hub_effect(s: SensorState, p: Seq<u8>) -> SensorState {
    let id = report_id_of(p);
    if id == SHUB_COMMAND_RESP && p.len() > 6 && (p[6] == SH2_STARTUP_INIT_UNSOLICITED || p[6]
        == SH2_INIT_SYSTEM) {
        SensorState { init_received: true, ..s }
    } else if id == SHUB_PROD_ID_RESP {
        SensorState { prod_id_verified: true, ..s }
    } else {
        s
    }
}

/// Sensor state and report counter after handling a received packet `p`
/// of at least four bytes, dispatched on its channel byte.
pub open spec fn packet_effect(s: SensorState, c: u64, p: Seq<u8>) -> (SensorState, u64) {
    let ch = p[2];
    if ch == CHANNEL_COMMAND {
        (command_effect(s, p), c)
    } else if ch == CHANNEL_EXECUTABLE {
        (exec_effect(s, p), c)
    } else if ch == CHANNEL_HUB_CONTROL {
        (hub_effect(s, p), c)
    } else if ch == CHANNEL_SENSOR_REPORTS {
        store_readings(s, c, sensor_readings(p))
    } else {
        (s, c)
    }
}

/// The model after handling `p`, or the error for a packet shorter than its
/// header.
pub open spec fn absorb(m: ImuModel, p: Seq<u8>) -> Result<ImuModel, ImuError> {
    if p.len() < 4 {
        Err(ImuError::Protocol(ProtocolFault::ShortPacket))
    } else {
        let (s, c) = packet_effect(m.state, m.counter, p);
        Ok(ImuModel { state: s, counter: c, ..m })
    }
}

/// Like `absorb`, but an empty read is no packet and changes nothing.
pub open spec fn absorb_read(m: ImuModel, rx: Seq<u8>) -> Result<ImuModel, ImuError> {
    if rx.len() == 0 {
        Ok(m)
    } else {
        absorb(m, rx)
    }
}

pub open spec fn reset_body() -> Seq<u8> {
    seq![EXECUTABLE_DEVICE_CMD_RESET]
}

pub open spec fn identity_request_body() -> Seq<u8> {
    seq![SHUB_PROD_ID_REQ, 0u8]
}

/// The end of a drain pass: the second pass follows the first; after the
/// second, the identity request goes out.
pub open spec fn end_drain(m: ImuModel, first: bool) -> (ImuModel, Result<ActionModel, ImuError>) {
    if first {
        (
            ImuModel { phase: BringUpPhase::Draining { first: false, left: SECOND_DRAIN_READS }, ..m },
            Ok(ActionModel::Receive { settle_ms: SECOND_DRAIN_SETTLE_MS, timeout_ms: DRAIN_READ_TIMEOUT_MS }),
        )
    } else {
        (
            ImuModel {
                phase: BringUpPhase::IdentityPending,
                sequences: after_send(m.sequences, CHANNEL_HUB_CONTROL),
                ..m
            },
            Ok(
                ActionModel::SendThenReceive {
                    packet: encoded(
                        CHANNEL_HUB_CONTROL,
                        m.sequences[CHANNEL_HUB_CONTROL as int],
                        identity_request_body(),
                    ),
                    timeout_ms: IDENTITY_READ_TIMEOUT_MS,
                },
            ),
        )
    }
}

pub open spec fn failed(m: ImuModel, e: ImuError) -> (ImuModel, Result<ActionModel, ImuError>) {
    (ImuModel { phase: BringUpPhase::Idle, ..m }, Err(e))
}

/// One step of the bring-up handshake: the model and the next action after
/// the caller reports `rx` (bytes read, empty for none) and `elapsed_ms`.
pub open spec fn bring_up_next(m: ImuModel, rx: Seq<u8>, elapsed_ms: u64) -> (
    ImuModel,
    Result<ActionModel, ImuError>,
) {
    match m.phase {
        BringUpPhase::TransportReady => (
            ImuModel {
                phase: BringUpPhase::SoftReset,
                sequences: after_send(m.sequences, CHANNEL_EXECUTABLE),
                ..m
            },
            Ok(
                ActionModel::SendAndReceive {
                    packet: encoded(CHANNEL_EXECUTABLE, m.sequences[CHANNEL_EXECUTABLE as int], reset_body()),
                },
            ),
        ),
        BringUpPhase::SoftReset => match absorb_read(m, rx) {
            Err(e) => failed(m, e),
            Ok(m2) => (
                ImuModel { phase: BringUpPhase::Draining { first: true, left: FIRST_DRAIN_READS }, ..m2 },
                Ok(ActionModel::Receive { settle_ms: RESET_SETTLE_MS, timeout_ms: DRAIN_READ_TIMEOUT_MS }),
            ),
        },
        BringUpPhase::Draining { first, left } => if rx.len() == 0 {
            end_drain(m, first)
        } else {
            match absorb(m, rx) {
                Err(e) => failed(m, e),
                Ok(m2) => if left <= 1 {
                    end_drain(m2, first)
                } else {
                    (
                        ImuModel { phase: BringUpPhase::Draining { first, left: (left - 1) as u16 }, ..m2 },
                        Ok(ActionModel::Receive { settle_ms: 0, timeout_ms: DRAIN_READ_TIMEOUT_MS }),
                    )
                },
            }
        },
        BringUpPhase::IdentityPending => match absorb_read(m, rx) {
            Err(e) => failed(m, e),
            Ok(m2) => if m2.state.prod_id_verified {
                (
                    ImuModel {
                        phase: BringUpPhase::Ready,
                        state: SensorState { pending_reset: false, ..m2.state },
                        ..m2
                    },
                    Ok(ActionModel::Finished),
                )
            } else if elapsed_ms > IDENTITY_BUDGET_MS {
                failed(m2, ImuError::ProductId)
            } else {
                (m2, Ok(ActionModel::Receive { settle_ms: 0, timeout_ms: IDENTITY_READ_TIMEOUT_MS }))
            },
        },
        _ => (m, Ok(ActionModel::Finished)),
    }
}

/// The model right after bring-up starts: counters, flags, slots and
/// markers are reset; the configuration stays.
pub open spec fn restarted(config: ImuConfig) -> ImuModel {
    ImuModel {
        config,
        sequences: Seq::new(NUM_CHANNELS as nat, |i: int| 0u8),
        counter: 0,
        state: initial_state(),
        markers: FrameMarkers { quat: 0, gyro: 0, accel: 0 },
        phase: BringUpPhase::TransportReady,
    }
}

/// Result of polling with one received packet: the packet is handled; a
/// reset that the device announced is reported (once); otherwise the next
/// frame, if the measurements yield one.
pub open spec fn poll_next(m: ImuModel, p: Seq<u8>) -> (ImuModel, Result<Option<Frame>, ImuError>) {
    match absorb(m, p) {
        Err(e) => (m, Err(e)),
        Ok(m2) => if m2.state.pending_reset {
            (ImuModel { state: SensorState { pending_reset: false, ..m2.state }, ..m2 }, Err(ImuError::SensorReset))
        } else {
            match build_frame(m2.state, m2.markers) {
                None => (m2, Ok(None)),
                Some((f, mk)) => (ImuModel { markers: mk, ..m2 }, Ok(Some(f))),
            }
        },
    }
}

proof fn lemma_store_keeps_flags(s: SensorState, c: u64, rs: Seq<SensorReading>)
    ensures
        store_readings(s, c, rs).0.pending_reset == s.pending_reset,
        store_readings(s, c, rs).0.prod_id_verified == s.prod_id_verified,
    decreases rs.len(),
{
    if rs.len() > 0 {
        lemma_store_keeps_flags(store_reading(s, next_counter(c), rs[0]), next_counter(c), rs.drop_first());
    }
}

/// A device reset is reported once: after a poll reports it, the next poll
/// reports another only when its own packet is a reset-complete
/// notification on the executable channel.
pub proof fn lemma_reset_reported_once(m: ImuModel, p: Seq<u8>, q: Seq<u8>)
    requires
        poll_next(m, p).1 == Err::<Option<Frame>, ImuError>(ImuError::SensorReset),
        !(q.len() >= 4 && q[2] == CHANNEL_EXECUTABLE && report_id_of(q) == EXECUTABLE_DEVICE_RESP_RESET_COMPLETE),
    ensures
        poll_next(poll_next(m, p).0, q).1 != Err::<Option<Frame>, ImuError>(ImuError::SensorReset),
{
    let m1 = poll_next(m, p).0;
    assert(!m1.state.pending_reset);
    if q.len() >= 4 {
        lemma_store_keeps_flags(m1.state, m1.counter, sensor_readings(q));
    }
}

/// Once the identity budget is spent, a bring-up step that does not get the
/// identity response fails with `ProductId`, whatever else was read.
pub proof fn lemma_identity_budget(m: ImuModel, rx: Seq<u8>, elapsed_ms: u64)
    requires
        m.phase == BringUpPhase::IdentityPending,
        !m.state.prod_id_verified,
        elapsed_ms > IDENTITY_BUDGET_MS,
        rx.len() == 0 || rx.len() >= 4,
        !(rx.len() >= 4 && rx[2] == CHANNEL_HUB_CONTROL && report_id_of(rx) == SHUB_PROD_ID_RESP),
    ensures
        bring_up_next(m, rx, elapsed_ms).1 == Err::<ActionModel, ImuError>(ImuError::ProductId),
        bring_up_next(m, rx, elapsed_ms).0.phase == BringUpPhase::Idle,
{
    if rx.len() >= 4 {
        lemma_store_keeps_flags(m.state, m.counter, sensor_readings(rx));
    }
}

/// The handshake packets set their flags and change nothing else: an
/// advertisement, an initialize response, the identity response, and a
/// reset-complete notification.
pub proof fn lemma_handshake_packets(m: ImuModel, p: Seq<u8>)
    requires
        p.len() >= 4,
    ensures
        p[2] == CHANNEL_COMMAND && report_id_of(p) == CMD_RESP_ADVERTISEMENT ==> absorb(m, p) == Ok::<
            ImuModel,
            ImuError,
        >(ImuModel { state: SensorState { advert_received: true, ..m.state }, ..m }),
        p[2] == CHANNEL_HUB_CONTROL && report_id_of(p) == SHUB_COMMAND_RESP && p.len() > 6 && (p[6]
            == SH2_STARTUP_INIT_UNSOLICITED || p[6] == SH2_INIT_SYSTEM) ==> absorb(m, p) == Ok::<
            ImuModel,
            ImuError,
        >(ImuModel { state: SensorState { init_received: true, ..m.state }, ..m }),
        p[2] == CHANNEL_HUB_CONTROL && report_id_of(p) == SHUB_COMMAND_RESP && p.len() > 6 && p[6]
            != SH2_STARTUP_INIT_UNSOLICITED && p[6] != SH2_INIT_SYSTEM ==> absorb(m, p) == Ok::<
            ImuModel,
            ImuError,
        >(m),
        p[2] == CHANNEL_HUB_CONTROL && report_id_of(p) == SHUB_PROD_ID_RESP ==> absorb(m, p) == Ok::<
            ImuModel,
            ImuError,
        >(ImuModel { state: SensorState { prod_id_verified: true, ..m.state }, ..m }),
        p[2] == CHANNEL_EXECUTABLE && report_id_of(p) == EXECUTABLE_DEVICE_RESP_RESET_COMPLETE ==> absorb(m, p)
            == Ok::<ImuModel, ImuError>(ImuModel { state: SensorState { pending_reset: true, ..m.state }, ..m }),
        p[2] == CHANNEL_EXECUTABLE && report_id_of(p) != EXECUTABLE_DEVICE_RESP_RESET_COMPLETE ==> absorb(m, p)
            == Ok::<ImuModel, ImuError>(m),
{
}

/// A sensor-reports packet cut short is no error: it stores exactly the
/// sub-reports that the whole packet starts with, as far as they are
/// complete, and nothing else.
pub proof fn lemma_truncated_sensor_packet(m: ImuModel, p: Seq<u8>, q: Seq<u8>)
    requires
        4 <= p.len() <= q.len(),
        p =~= q.subrange(0, p.len() as int),
        q[2] == CHANNEL_SENSOR_REPORTS,
    ensures
        sensor_readings(p).len() <= sensor_readings(q).len(),
        absorb(m, p) == Ok::<ImuModel, ImuError>(
            {
                let (s, c) = store_readings(
                    m.state,
                    m.counter,
                    sensor_readings(q).subrange(0, sensor_readings(p).len() as int),
                );
                ImuModel { state: s, counter: c, ..m }
            },
        ),
{
    lemma_truncation_keeps_decoded(p, q);
    assert(p[2] == q[2]);
    assert(sensor_readings(p) =~= sensor_readings(q).subrange(0, sensor_readings(p).len() as int));
}

/// The model after polling with each packet of `ps` in turn.
pub open spec fn poll_all(m: ImuModel, ps: Seq<Seq<u8>>) -> ImuModel
    decreases ps.len(),
{
    if ps.len() == 0 {
        m
    } else {
        poll_all(poll_next(m, ps[0]).0, ps.drop_first())
    }
}

pub open spec fn markers_at_least(a: FrameMarkers, b: FrameMarkers) -> bool {
    a.quat >= b.quat && a.gyro >= b.gyro && a.accel >= b.accel
}

pub open spec fn markers_above(a: FrameMarkers, b: FrameMarkers) -> bool {
    a.quat > b.quat && a.gyro > b.gyro && a.accel > b.accel
}

proof fn lemma_poll_markers(m: ImuModel, p: Seq<u8>)
    ensures
        markers_at_least(poll_next(m, p).0.markers, m.markers),
        poll_next(m, p).1 matches Ok(Some(_)) ==> markers_above(poll_next(m, p).0.markers, m.markers),
{
}

proof fn lemma_poll_all_markers(m: ImuModel, ps: Seq<Seq<u8>>)
    ensures
        markers_at_least(poll_all(m, ps).markers, m.markers),
    decreases ps.len(),
{
    if ps.len() > 0 {
        lemma_poll_markers(m, ps[0]);
        lemma_poll_all_markers(poll_next(m, ps[0]).0, ps.drop_first());
    }
}

/// Over any run of polls, a frame emitted after an earlier one uses a newer
/// orientation, angular-rate and acceleration sample than that one did.
pub proof fn lemma_polled_frames_never_repeat(m: ImuModel, p: Seq<u8>, ps: Seq<Seq<u8>>, q: Seq<u8>)
    requires
        poll_next(m, p).1 matches Ok(Some(_)),
        poll_next(poll_all(poll_next(m, p).0, ps), q).1 matches Ok(Some(_)),
    ensures
        markers_above(poll_next(poll_all(poll_next(m, p).0, ps), q).0.markers, poll_next(m, p).0.markers),
{
    let m1 = poll_next(m, p).0;
    lemma_poll_all_markers(m1, ps);
    lemma_poll_markers(poll_all(m1, ps), q);
}

/// The report interval for a requested rate: the rate is raised to at
/// least 1 Hz, and the interval is never below 1000 microseconds.
pub open spec fn report_interval_us(hz: u16) -> u32 {
    let h: int = if hz == 0 { 1 } else { hz as int };
    let iv: int = 1_000_000int / h;
    if iv < 1000 { 1000u32 } else { iv as u32 }
}

/// The report types enabled, in the order their commands are sent.
pub open spec fn feature_ids() -> Seq<u8> {
    seq![
        SENSOR_REPORTID_GAME_ROTATION_VECTOR,
        SENSOR_REPORTID_LINEAR_ACCELERATION,
        SENSOR_REPORTID_ACCELEROMETER,
        SENSOR_REPORTID_GYRO_CALIBRATED,
    ]
}

/// The body of a set-feature command: the interval sits little-endian at
/// bytes five to eight of a seventeen-byte body.
pub open spec fn feature_body(report_id: u8, interval_us: u32) -> Seq<u8> {
    seq![
        SHUB_REPORT_SET_FEATURE_CMD, report_id, 0u8, 0u8, 0u8,
        (interval_us % 256) as u8,
        ((interval_us / 256) % 256) as u8,
        ((interval_us / 65536) % 256) as u8,
        (interval_us / 16777216) as u8,
        0u8, 0u8, 0u8, 0u8, 0u8, 0u8, 0u8, 0u8,
    ]
}

/// Computes `report_interval_us`.
pub fn report_interval(hz: u16) -> (r: u32)
    ensures
        r == report_interval_us(hz),
{
    let h: u32 = if hz == 0 { 1 } else { hz as u32 };
    let iv: u32 = 1_000_000u32 / h;
    if iv < 1000 { 1000 } else { iv }
}

/// Builds the set-feature command body for `report_id` at `interval_us`.
pub fn feature_command_body(report_id: u8, interval_us: u32) -> (r: Vec<u8>)
    ensures
        r@ == feature_body(report_id, interval_us),
{
    let b0 = (interval_us & 0xFF) as u8;
    let b1 = ((interval_us >> 8u32) & 0xFF) as u8;
    let b2 = ((interval_us >> 16u32) & 0xFF) as u8;
    let b3 = ((interval_us >> 24u32) & 0xFF) as u8;
    assert(interval_us & 0xFF == interval_us % 256) by (bit_vector);
    assert((interval_us >> 8u32) & 0xFF == (interval_us / 256) % 256) by (bit_vector);
    assert((interval_us >> 16u32) & 0xFF == (interval_us / 65536) % 256) by (bit_vector);
    assert((interval_us >> 24u32) & 0xFF == interval_us / 16777216) by (bit_vector);
    let r = vec![SHUB_REPORT_SET_FEATURE_CMD, report_id, 0, 0, 0, b0, b1, b2, b3, 0, 0, 0, 0, 0, 0, 0, 0];
    assert(r@ =~= feature_body(report_id, interval_us));
    r
}

impl Imu {
    pub open spec fn wf(&self) -> bool {
        model_wf(self@)
    }

    /// Resets counters, flags, slots and markers and starts bring-up.
    fn bootstrap(&mut self) -> (r: BringUpAction)
        ensures
            final(self).wf(),
            final(self)@ == restarted(old(self)@.config),
            r@ == (ActionModel::SetupTransport { settle_ms: SETUP_SETTLE_MS }),
    {
        self.seqs = ChannelSequences::new();
        self.state = SensorState::new();
        self.last_frame = FrameMarkers::new();
        self.report_counter = 0;
        self.phase = BringUpPhase::TransportReady;
        BringUpAction::SetupTransport { settle_ms: SETUP_SETTLE_MS }
    }

    /// A new engine for `config`, with bring-up started.
    pub fn init(config: ImuConfig) -> (r: (Imu, BringUpAction))
        ensures
            r.0.wf(),
            r.0@ == restarted(config),
            r.1@ == (ActionModel::SetupTransport { settle_ms: SETUP_SETTLE_MS }),
    {
        let mut imu = Imu {
            config,
            seqs: ChannelSequences::new(),
            report_counter: 0,
            state: SensorState::new(),
            last_frame: FrameMarkers::new(),
            phase: BringUpPhase::Idle,
        };
        let action = imu.bootstrap();
        (imu, action)
    }

    /// Starts a full bring-up again after the device reset or failed. Once it
    /// is finished the caller enables the reports again and then clears the
    /// measurements.
    pub fn handle_reset(&mut self) -> (r: BringUpAction)
        ensures
            final(self).wf(),
            final(self)@ == restarted(old(self)@.config),
            r@ == (ActionModel::SetupTransport { settle_ms: SETUP_SETTLE_MS }),
    {
        self.bootstrap()
    }

    /// Frames a short body for `channel` with the channel's next sequence number.
    fn prep_send_packet(&mut self, channel: u8, body: &[u8]) -> (r: Vec<u8>)
        requires
            old(self).wf(),
            channel < NUM_CHANNELS,
            body@.len() <= 17,
        ensures
            final(self).wf(),
            r@ == encoded(channel, old(self)@.sequences[channel as int], body@),
            final(self)@ == (ImuModel { sequences: after_send(old(self)@.sequences, channel), ..old(self)@ }),
    {
        match self.seqs.encode(channel, body) {
            Ok(p) => p,
            Err(_) => Vec::new(),
        }
    }

    fn handle_command_channel(&mut self, report_id: u8, packet: &[u8])
        requires
            packet@.len() >= 4,
            report_id == report_id_of(packet@),
        ensures
            final(self)@ == (ImuModel { state: command_effect(old(self)@.state, packet@), ..old(self)@ }),
    {
        if report_id == CMD_RESP_ADVERTISEMENT {
            self.state.advert_received = true;
        } else if report_id == CMD_RESP_ERROR_LIST {
            if packet.len() > PACKET_HEADER_LENGTH + 1 {
                self.state.last_error = Some(packet[PACKET_HEADER_LENGTH + 1]);
            }
        }
    }

    fn handle_exec_channel(&mut self, report_id: u8, packet: &[u8])
        requires
            report_id == report_id_of(packet@),
        ensures
            final(self)@ == (ImuModel { state: exec_effect(old(self)@.state, packet@), ..old(self)@ }),
    {
        if report_id == EXECUTABLE_DEVICE_RESP_RESET_COMPLETE {
            self.state.pending_reset = true;
        }
    }

    fn handle_hub_control(&mut self, report_id: u8, packet: &[u8])
        requires
            packet@.len() >= 4,
            report_id == report_id_of(packet@),
        ensures
            final(self)@ == (ImuModel { state: hub_effect(old(self)@.state, packet@), ..old(self)@ }),
    {
        if report_id == SHUB_COMMAND_RESP {
            if packet.len() > PACKET_HEADER_LENGTH + 2 {
                let resp = packet[PACKET_HEADER_LENGTH + 2];
                if resp == SH2_STARTUP_INIT_UNSOLICITED || resp == SH2_INIT_SYSTEM {
                    self.state.init_received = true;
                }
            }
        } else if report_id == SHUB_PROD_ID_RESP {
            self.state.prod_id_verified = true;
        }
    }

    /// Decodes the sub-reports of `packet` and stores each in its slot under
    /// the next value of the report counter.
    fn handle_sensor_reports(&mut self, packet: &[u8])
        ensures
            (final(self)@.state, final(self)@.counter) == store_readings(
                old(self)@.state,
                old(self)@.counter,
                sensor_readings(packet@),
            ),
            final(self)@ == (ImuModel { state: final(self)@.state, counter: final(self)@.counter, ..old(self)@ }),
    {
        let readings = decode_sensor_reports(packet);
        let n = readings.len();
        let mut i: usize = 0;
        assert(readings@.subrange(0, n as int) =~= readings@);
        while i < n
            invariant
                n == readings@.len(),
                i <= n,
                store_readings(self.state, self.report_counter, readings@.subrange(i as int, n as int))
                    == store_readings(old(self)@.state, old(self)@.counter, readings@),
                self@ == (ImuModel { state: self@.state, counter: self@.counter, ..old(self)@ }),
            decreases n - i,
        {
            assert(readings@.subrange(i as int, n as int).drop_first() =~= readings@.subrange(i + 1, n as int));
            self.report_counter = bump_counter(self.report_counter);
            self.state.store(self.report_counter, readings[i]);
            i = i + 1;
        }
    }

    /// Handles one received packet (header included), dispatched on its
    /// channel. A packet shorter than its header is a protocol error and
    /// changes nothing; a truncated sub-report is no error.
    pub fn handle_received_packet(&mut self, packet: &[u8]) -> (r: Result<(), ImuError>)
        requires
            old(self).wf(),
        ensures
            final(self).wf(),
            absorb(old(self)@, packet@) matches Err(e) ==> r == Err::<(), ImuError>(e) && final(self)@ == old(self)@,
            absorb(old(self)@, packet@) matches Ok(m) ==> r is Ok && final(self)@ == m,
    {
        if packet.len() < PACKET_HEADER_LENGTH {
            return Err(ImuError::Protocol(ProtocolFault::ShortPacket));
        }
        let channel = packet[2];
        let report_id = if packet.len() > PACKET_HEADER_LENGTH {
            packet[PACKET_HEADER_LENGTH]
        } else {
            0
        };
        if channel == CHANNEL_COMMAND {
            self.handle_command_channel(report_id, packet);
        } else if channel == CHANNEL_EXECUTABLE {
            self.handle_exec_channel(report_id, packet);
        } else if channel == CHANNEL_HUB_CONTROL {
            self.handle_hub_control(report_id, packet);
        } else if channel == CHANNEL_SENSOR_REPORTS {
            self.handle_sensor_reports(packet);
        }
        Ok(())
    }

    /// Handles what was read during bring-up: an empty read is no packet.
    fn handle_read(&mut self, received: &Vec<u8>) -> (r: Result<(), ImuError>)
        requires
            old(self).wf(),
        ensures
            final(self).wf(),
            absorb_read(old(self)@, received@) matches Err(e) ==> r == Err::<(), ImuError>(e) && final(self)@ == old(self)@,
            absorb_read(old(self)@, received@) matches Ok(m) ==> r is Ok && final(self)@ == m,
    {
        if received.len() == 0 {
            return Ok(());
        }
        self.handle_received_packet(received.as_slice())
    }

    fn end_drain(&mut self, first: bool) -> (r: BringUpAction)
        requires
            old(self).wf(),
        ensures
            final(self).wf(),
            (final(self)@, Ok::<ActionModel, ImuError>(r@)) == end_drain(old(self)@, first),
    {
        if first {
            self.phase = BringUpPhase::Draining { first: false, left: SECOND_DRAIN_READS };
            BringUpAction::Receive { settle_ms: SECOND_DRAIN_SETTLE_MS, timeout_ms: DRAIN_READ_TIMEOUT_MS }
        } else {
            let body: Vec<u8> = vec![SHUB_PROD_ID_REQ, 0];
            assert(body@ =~= identity_request_body());
            let packet = self.prep_send_packet(CHANNEL_HUB_CONTROL, body.as_slice());
            self.phase = BringUpPhase::IdentityPending;
            BringUpAction::SendThenReceive { packet, timeout_ms: IDENTITY_READ_TIMEOUT_MS }
        }
    }

    /// Advances bring-up by one step after the caller carried out the last
    /// action and reports what it observed. On an error the engine falls
    /// back to `Idle` and a new bring-up is needed.
    pub fn bring_up_step(&mut self, event: &BringUpEvent) -> (r: Result<BringUpAction, ImuError>)
        requires
            old(self).wf(),
        ensures
            final(self).wf(),
            (final(self)@, match r { Ok(a) => Ok(a@), Err(e) => Err(e) }) == bring_up_next(
                old(self)@,
                event.received@,
                event.elapsed_ms,
            ),
    {
        match self.phase {
            BringUpPhase::TransportReady => {
                let body: Vec<u8> = vec![EXECUTABLE_DEVICE_CMD_RESET];
                assert(body@ =~= reset_body());
                let packet = self.prep_send_packet(CHANNEL_EXECUTABLE, body.as_slice());
                self.phase = BringUpPhase::SoftReset;
                Ok(BringUpAction::SendAndReceive { packet })
            },
            BringUpPhase::SoftReset => {
                if let Err(e) = self.handle_read(&event.received) {
                    self.phase = BringUpPhase::Idle;
                    return Err(e);
                }
                self.phase = BringUpPhase::Draining { first: true, left: FIRST_DRAIN_READS };
                Ok(BringUpAction::Receive { settle_ms: RESET_SETTLE_MS, timeout_ms: DRAIN_READ_TIMEOUT_MS })
            },
            BringUpPhase::Draining { first, left } => {
                if event.received.len() == 0 {
                    return Ok(self.end_drain(first));
                }
                if let Err(e) = self.handle_received_packet(event.received.as_slice()) {
                    self.phase = BringUpPhase::Idle;
                    return Err(e);
                }
                if left <= 1 {
                    Ok(self.end_drain(first))
                } else {
                    self.phase = BringUpPhase::Draining { first, left: left - 1 };
                    Ok(BringUpAction::Receive { settle_ms: 0, timeout_ms: DRAIN_READ_TIMEOUT_MS })
                }
            },
            BringUpPhase::IdentityPending => {
                if let Err(e) = self.handle_read(&event.received) {
                    self.phase = BringUpPhase::Idle;
                    return Err(e);
                }
                if self.state.prod_id_verified {
                    self.state.pending_reset = false;
                    self.phase = BringUpPhase::Ready;
                    Ok(BringUpAction::Finished)
                } else if event.elapsed_ms > IDENTITY_BUDGET_MS {
                    self.phase = BringUpPhase::Idle;
                    Err(ImuError::ProductId)
                } else {
                    Ok(BringUpAction::Receive { settle_ms: 0, timeout_ms: IDENTITY_READ_TIMEOUT_MS })
                }
            },
            _ => Ok(BringUpAction::Finished),
        }
    }

    /// Sends one set-feature command per measurement report type at the
    /// interval for `hz` (see `report_interval_us`), and records the rate.
    /// Returns the four packets to write, in order.
    pub fn enable_reports(&mut self, hz: u16) -> (r: Vec<Vec<u8>>)
        requires
            old(self).wf(),
        ensures
            final(self).wf(),
            r@.len() == 4,
            forall|k: int|
                0 <= k < 4 ==> #[trigger] r@[k]@ == encoded(
                    CHANNEL_HUB_CONTROL,
                    ((old(self)@.sequences[CHANNEL_HUB_CONTROL as int] + k) % 256) as u8,
                    feature_body(feature_ids()[k], report_interval_us(hz)),
                ),
            final(self)@ == (ImuModel {
                config: ImuConfig { hz: if hz == 0 { 1 } else { hz }, ..old(self)@.config },
                sequences: old(self)@.sequences.update(
                    CHANNEL_HUB_CONTROL as int,
                    ((old(self)@.sequences[CHANNEL_HUB_CONTROL as int] + 4) % 256) as u8,
                ),
                ..old(self)@
            }),
    {
        let hz = if hz == 0 { 1 } else { hz };
        self.config.hz = hz;
        let interval_us = report_interval(hz);
        let ids: Vec<u8> = vec![
            SENSOR_REPORTID_GAME_ROTATION_VECTOR,
            SENSOR_REPORTID_LINEAR_ACCELERATION,
            SENSOR_REPORTID_ACCELEROMETER,
            SENSOR_REPORTID_GYRO_CALIBRATED,
        ];
        assert(ids@ =~= feature_ids());
        let ghost s0 = old(self)@.sequences;
        let ghost m0 = self@;
        let mut out: Vec<Vec<u8>> = Vec::new();
        let mut i: usize = 0;
        assert(s0.update(CHANNEL_HUB_CONTROL as int, ((s0[CHANNEL_HUB_CONTROL as int] + 0) % 256) as u8) =~= s0);
        while i < 4
            invariant
                s0.len() == NUM_CHANNELS,
                ids@ == feature_ids(),
                interval_us == report_interval_us(hz),
                self.wf(),
                i <= 4,
                out@.len() == i,
                s0 == m0.sequences,
                forall|k: int|
                    0 <= k < i ==> #[trigger] out@[k]@ == encoded(
                        CHANNEL_HUB_CONTROL,
                        ((s0[CHANNEL_HUB_CONTROL as int] + k) % 256) as u8,
                        feature_body(feature_ids()[k], interval_us),
                    ),
                self@ == (ImuModel {
                    sequences: s0.update(
                        CHANNEL_HUB_CONTROL as int,
                        ((s0[CHANNEL_HUB_CONTROL as int] + i) % 256) as u8,
                    ),
                    ..m0
                }),
            decreases 4 - i,
        {
            let body = feature_command_body(ids[i], interval_us);
            let packet = self.prep_send_packet(CHANNEL_HUB_CONTROL, body.as_slice());
            let ghost before = out@;
            out.push(packet);
            assert(((s0[CHANNEL_HUB_CONTROL as int] + i) % 256 + 1) % 256 == (s0[CHANNEL_HUB_CONTROL as int] + i
                + 1) % 256);
            i = i + 1;
            assert(self@.sequences =~= s0.update(
                CHANNEL_HUB_CONTROL as int,
                ((s0[CHANNEL_HUB_CONTROL as int] + i) % 256) as u8,
            ));
            assert forall|k: int| 0 <= k < i implies #[trigger] out@[k]@ == encoded(
                CHANNEL_HUB_CONTROL,
                ((s0[CHANNEL_HUB_CONTROL as int] + k) % 256) as u8,
                feature_body(feature_ids()[k], interval_us),
            ) by {
                if k < i - 1 {
                    assert(out@[k] == before[k]);
                }
            }
        }
        out
    }

    /// Handles one received packet during streaming and reports a device
    /// reset once, or returns the next frame if the measurements yield one.
    pub fn poll_frame(&mut self, packet: &[u8]) -> (r: Result<Option<Frame>, ImuError>)
        requires
            old(self).wf(),
        ensures
            final(self).wf(),
            (final(self)@, r) == poll_next(old(self)@, packet@),
    {
        self.handle_received_packet(packet)?;
        if self.state.pending_reset {
            self.state.pending_reset = false;
            return Err(ImuError::SensorReset);
        }
        Ok(self.try_build_frame())
    }

    /// The next frame, if the measurements yield one (see `build_frame`);
    /// the markers move to its counters.
    pub fn try_build_frame(&mut self) -> (r: Option<Frame>)
        requires
            old(self).wf(),
        ensures
            final(self).wf(),
            build_frame(old(self)@.state, old(self)@.markers) is None ==> r is None && final(self)@ == old(self)@,
            build_frame(old(self)@.state, old(self)@.markers) matches Some((f, mk)) ==> r == Some(f)
                && final(self)@ == (ImuModel { markers: mk, ..old(self)@ }),
    {
        try_build_frame(&self.state, &mut self.last_frame)
    }

    /// Forgets all measurements and frame markers; flags stay.
    pub fn clear_measurements(&mut self)
        requires
            old(self).wf(),
        ensures
            final(self).wf(),
            final(self)@ == (ImuModel {
                state: without_measurements(old(self)@.state),
                markers: FrameMarkers { quat: 0, gyro: 0, accel: 0 },
                ..old(self)@
            }),
    {
        self.state.clear_measurements();
        self.last_frame = FrameMarkers::new();
    }

    /// The last error code that the device reported.
    pub fn last_error(&self) -> (r: Option<u8>)
        ensures
            r == self@.state.last_error,
    {
        self.state.last_error
    }

    /// The current sensor state.
    pub fn state(&self) -> (r: SensorState)
        ensures
            r == self@.state,
    {
        self.state
    }

    /// Where bring-up stands.
    pub fn phase(&self) -> (r: BringUpPhase)
        ensures
            r == self@.phase,
    {
        self.phase
    }

    /// The configuration, with the rate last enabled.
    pub fn config(&self) -> (r: ImuConfig)
        ensures
            r == self@.config,
    {
        self.config
    }
}

} // verus!
