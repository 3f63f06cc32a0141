use imu_rust::engine::{feature_command_body, report_interval, BringUpAction, BringUpEvent, BringUpPhase, Imu, ImuConfig};
use imu_rust::error::{ImuError, ProtocolFault};

fn config() -> ImuConfig {
    ImuConfig { bus: 1, address: 0x4A, hz: 100 }
}

fn event(received: Vec<u8>, elapsed_ms: u64) -> BringUpEvent {
    BringUpEvent { received, elapsed_ms }
}

fn packet(channel: u8, body: &[u8]) -> Vec<u8> {
    let len = body.len() + 4;
    let mut p = vec![len as u8, 0, channel, 0];
    p.extend_from_slice(body);
    p
}

/// Runs bring-up up to the identity request and returns the engine.
fn bring_up_to_identity() -> Imu {
    let (mut imu, first) = Imu::init(config());
    assert!(matches!(first, BringUpAction::SetupTransport { settle_ms: 1 }));
    match imu.bring_up_step(&event(vec![], 0)).unwrap() {
        BringUpAction::SendAndReceive { packet } => assert_eq!(packet, vec![5, 0, 1, 0, 1]),
        other => panic!("unexpected {:?}", other),
    }
    let advert = packet(0, &[0x00, 0x01, 0x02]);
    let a = imu.bring_up_step(&event(advert, 0)).unwrap();
    assert!(matches!(a, BringUpAction::Receive { settle_ms: 150, timeout_ms: 10 }));
    assert!(imu.state().advert_received);
    let init = packet(2, &[0xF1, 0x00, 0x84, 0x00]);
    let a = imu.bring_up_step(&event(init, 0)).unwrap();
    assert!(matches!(a, BringUpAction::Receive { settle_ms: 0, timeout_ms: 10 }));
    assert!(imu.state().init_received);
    let a = imu.bring_up_step(&event(vec![], 0)).unwrap();
    assert!(matches!(a, BringUpAction::Receive { settle_ms: 50, timeout_ms: 10 }));
    match imu.bring_up_step(&event(vec![], 0)).unwrap() {
        BringUpAction::SendThenReceive { packet, timeout_ms } => {
            assert_eq!(packet, vec![6, 0, 2, 0, 0xF9, 0]);
            assert_eq!(timeout_ms, 150);
        }
        other => panic!("unexpected {:?}", other),
    }
    assert_eq!(imu.phase(), BringUpPhase::IdentityPending);
    imu
}

#[test]
fn bring_up_reaches_ready_and_reset_surfaces_once() {
    let mut imu = bring_up_to_identity();
    let identity = packet(2, &[0xF8, 0x00, 0x03, 0x02]);
    let a = imu.bring_up_step(&event(identity, 20)).unwrap();
    assert!(matches!(a, BringUpAction::Finished));
    assert_eq!(imu.phase(), BringUpPhase::Ready);
    assert!(imu.state().prod_id_verified);
    assert!(!imu.state().pending_reset);

    let reset_complete = packet(1, &[0x01]);
    assert_eq!(imu.poll_frame(&reset_complete), Err(ImuError::SensorReset));
    assert!(!imu.state().pending_reset);
    let unrelated = packet(0, &[0x05]);
    assert_eq!(imu.poll_frame(&unrelated), Ok(None));
}

#[test]
fn identity_times_out_after_budget() {
    let mut imu = bring_up_to_identity();
    let a = imu.bring_up_step(&event(vec![], 300)).unwrap();
    assert!(matches!(a, BringUpAction::Receive { settle_ms: 0, timeout_ms: 150 }));
    let r = imu.bring_up_step(&event(vec![], 501));
    assert!(matches!(r, Err(ImuError::ProductId)));
    assert_eq!(imu.phase(), BringUpPhase::Idle);
}

#[test]
fn short_packet_during_bring_up_is_a_protocol_error() {
    let mut imu = bring_up_to_identity();
    let r = imu.bring_up_step(&event(vec![1, 2], 0));
    assert!(matches!(r, Err(ImuError::Protocol(ProtocolFault::ShortPacket))));
    assert_eq!(imu.phase(), BringUpPhase::Idle);
}

#[test]
fn draining_stops_after_its_read_budget() {
    let (mut imu, _) = Imu::init(config());
    imu.bring_up_step(&event(vec![], 0)).unwrap();
    imu.bring_up_step(&event(vec![], 0)).unwrap();
    let noise = packet(5, &[0x00]);
    for _ in 0..199 {
        let a = imu.bring_up_step(&event(noise.clone(), 0)).unwrap();
        assert!(matches!(a, BringUpAction::Receive { settle_ms: 0, timeout_ms: 10 }));
    }
    let a = imu.bring_up_step(&event(noise.clone(), 0)).unwrap();
    assert!(matches!(a, BringUpAction::Receive { settle_ms: 50, timeout_ms: 10 }));
}

#[test]
fn error_list_records_last_error() {
    let mut imu = bring_up_to_identity();
    imu.handle_received_packet(&packet(0, &[0x01, 0x2A])).unwrap();
    assert_eq!(imu.last_error(), Some(0x2A));
    assert_eq!(imu.handle_received_packet(&[0, 0, 0]), Err(ImuError::Protocol(ProtocolFault::ShortPacket)));
}

#[test]
fn enable_reports_sends_four_feature_commands() {
    let (mut imu, _) = Imu::init(config());
    let packets = imu.enable_reports(100);
    assert_eq!(packets.len(), 4);
    let ids = [0x08u8, 0x04, 0x01, 0x02];
    for (k, p) in packets.iter().enumerate() {
        assert_eq!(p.len(), 21);
        assert_eq!(&p[..4], &[21, 0, 2, k as u8]);
        assert_eq!(p[4], 0xFD);
        assert_eq!(p[5], ids[k]);
        // 10000 us little-endian
        assert_eq!(&p[9..13], &[0x10, 0x27, 0x00, 0x00]);
    }
    assert_eq!(imu.config().hz, 100);
}

#[test]
fn rate_is_clamped_and_interval_floored() {
    assert_eq!(report_interval(0), 1_000_000);
    assert_eq!(report_interval(1), 1_000_000);
    assert_eq!(report_interval(400), 2500);
    assert_eq!(report_interval(2000), 1000);
    let (mut imu, _) = Imu::init(config());
    imu.enable_reports(0);
    assert_eq!(imu.config().hz, 1);
    assert_eq!(
        feature_command_body(0x01, 0x0102_0304),
        vec![0xFD, 0x01, 0, 0, 0, 0x04, 0x03, 0x02, 0x01, 0, 0, 0, 0, 0, 0, 0, 0]
    );
}

#[test]
fn polling_builds_frames_from_sensor_reports() {
    let mut imu = bring_up_to_identity();
    imu.bring_up_step(&event(packet(2, &[0xF8]), 0)).unwrap();
    let mut body = vec![0xFB, 0, 0, 0, 0];
    body.extend_from_slice(&[0x01, 0, 0, 0, 0x00, 0x01, 0, 0, 0, 0]);
    body.extend_from_slice(&[0x02, 0, 0, 0, 0x00, 0x02, 0, 0, 0, 0]);
    body.extend_from_slice(&[0x08, 0, 0, 0, 0, 0, 0, 0, 0, 0, 0x00, 0x40]);
    let p = packet(3, &body);
    let f = imu.poll_frame(&p).unwrap().unwrap();
    assert_eq!((f.accel.x, f.gyro.x, f.quat.w), (256, 512, 16384));
    assert_eq!(imu.poll_frame(&packet(0, &[0x05])), Ok(None));
    imu.clear_measurements();
    assert!(imu.state().quat.value.is_none());
    assert_eq!(imu.poll_frame(&p).unwrap().unwrap(), f);
}

#[test]
fn handle_reset_restarts_bring_up() {
    let mut imu = bring_up_to_identity();
    let a = imu.handle_reset();
    assert!(matches!(a, BringUpAction::SetupTransport { settle_ms: 1 }));
    assert_eq!(imu.phase(), BringUpPhase::TransportReady);
    assert!(!imu.state().advert_received);
    match imu.bring_up_step(&event(vec![], 0)).unwrap() {
        BringUpAction::SendAndReceive { packet } => assert_eq!(packet[3], 0),
        other => panic!("unexpected {:?}", other),
    }
}

#[test]
fn identity_budget_fails_even_while_other_packets_arrive() {
    let mut imu = bring_up_to_identity();
    let other = packet(0, &[0x05, 0x00]);
    let a = imu.bring_up_step(&event(other.clone(), 200)).unwrap();
    assert!(matches!(a, BringUpAction::Receive { settle_ms: 0, timeout_ms: 150 }));
    let r = imu.bring_up_step(&event(other, 501));
    assert!(matches!(r, Err(ImuError::ProductId)));
    assert_eq!(imu.phase(), BringUpPhase::Idle);
}

#[test]
fn identity_response_at_the_budget_edge_still_succeeds() {
    let mut imu = bring_up_to_identity();
    let identity = packet(2, &[0xF8, 0x00]);
    let a = imu.bring_up_step(&event(identity, 900)).unwrap();
    assert!(matches!(a, BringUpAction::Finished));
    assert_eq!(imu.phase(), BringUpPhase::Ready);
}
