use km_relay::backoff::{BackoffPolicy, READ_BACKOFF_MS, WRITE_BACKOFF_MS};
use km_relay::capture::{CaptureAction, CaptureEvent, CaptureLoop, StopReason};
use km_relay::channel::{DequeueError, EnqueueError, RelayChannel};
use km_relay::message::ReportOrigin;
use km_relay::modifier::{Config, InputModifier};
use km_relay::multiplier::Multiplier;
use km_relay::orchestrator::{Orchestrator, SupervisorAction, SupervisorEvent};
use km_relay::transmit::{TransmitAction, TransmitEvent, TransmitLoop};

fn modifier() -> InputModifier {
    let base = Config::default();
    let two = Multiplier::from_f32_bits(2.0f32.to_bits()).unwrap();
    let mut config = base.with_overrides(two, true);
    config.deadzone_threshold = 0;
    InputModifier::new(config)
}

fn drive_capture(reads: Vec<CaptureEvent>, channel: &mut RelayChannel) -> (CaptureLoop, usize) {
    let m = modifier();
    let mut l = CaptureLoop::new(ReportOrigin::Pointer, BackoffPolicy::fixed(READ_BACKOFF_MS));
    let mut reads = reads.into_iter();
    let mut event = CaptureEvent::Resumed;
    let mut handed_off = 0;
    loop {
        event = match l.step(event, &m) {
            CaptureAction::Open => CaptureEvent::Opened,
            CaptureAction::Read => reads.next().unwrap_or(CaptureEvent::Shutdown),
            CaptureAction::Backoff(ms) => {
                assert_eq!(ms, 10);
                CaptureEvent::Resumed
            },
            CaptureAction::Enqueue(msg) => match channel.try_enqueue(msg) {
                Ok(()) => {
                    handed_off += 1;
                    CaptureEvent::Accepted
                },
                Err(EnqueueError::Closed(_)) => CaptureEvent::ChannelClosed,
                Err(EnqueueError::Full(_)) => panic!("the test channel has room"),
            },
            CaptureAction::Discard(_) | CaptureAction::Proceed => CaptureEvent::Resumed,
            CaptureAction::Stop(_) => break,
        };
    }
    (l, handed_off)
}

fn drive_transmit(channel: &mut RelayChannel) -> (TransmitLoop, Vec<u8>) {
    let mut l = TransmitLoop::new(BackoffPolicy::fixed(WRITE_BACKOFF_MS), 0);
    let mut wire = Vec::new();
    let mut event = TransmitEvent::Resumed;
    loop {
        event = match l.step(event) {
            TransmitAction::Dequeue => match channel.try_dequeue() {
                Ok(msg) => {
                    assert!(msg.payload.fits_frame());
                    TransmitEvent::Message(msg)
                },
                Err(DequeueError::Closed) => TransmitEvent::ChannelClosed,
                Err(DequeueError::Empty) => panic!("every producer has finished"),
            },
            TransmitAction::Write(line) => {
                wire.extend_from_slice(&line);
                TransmitEvent::WriteDone
            },
            TransmitAction::Flush => TransmitEvent::FlushDone,
            TransmitAction::Backoff(_) | TransmitAction::Summarize(_) | TransmitAction::Proceed => {
                TransmitEvent::Resumed
            },
            TransmitAction::Stop => break,
        };
    }
    (l, wire)
}

#[test]
fn end_to_end_scenario() {
    let mut channel = RelayChannel::new(4, 1).unwrap();
    let raw = vec![0x00, 0x0A, 0x00, 0xF6, 0xFF, 0x01, 0x05, 0x00, 0x00];
    let (capture, handed_off) = drive_capture(vec![CaptureEvent::Report(raw)], &mut channel);
    assert!(capture.is_stopped());
    assert_eq!(handed_off, 1);
    channel.release_producer();
    let (transmit, wire) = drive_transmit(&mut channel);
    assert!(transmit.is_stopped());
    assert_eq!(wire, b"HID:001400ecff02050000\n".to_vec());
    assert_eq!(transmit.stats.reports_seen, 1);
    assert_eq!(transmit.stats.reports_modified, 1);
}

#[test]
fn read_order_reaches_the_wire() {
    let mut channel = RelayChannel::new(16, 1).unwrap();
    let reads = vec![
        CaptureEvent::Report(vec![0, 1, 0, 0, 0, 0, 0, 0, 0]),
        CaptureEvent::Timeout,
        CaptureEvent::Report(vec![0; 9]),
        CaptureEvent::ReadFailed,
        CaptureEvent::Report(vec![1, 2]),
        CaptureEvent::Report(vec![0x01, 0x02, 0xFE, 0x00]),
        CaptureEvent::Report(vec![0, 3, 0, 0, 0, 0, 0, 0, 0]),
    ];
    let (capture, handed_off) = drive_capture(reads, &mut channel);
    assert_eq!(capture.state, km_relay::capture::CaptureState::Stopped(StopReason::Cancelled));
    assert_eq!(handed_off, 3);
    channel.release_producer();
    let (transmit, wire) = drive_transmit(&mut channel);
    let text = String::from_utf8(wire).unwrap();
    assert_eq!(text, "HID:000200000000000000\nHID:0204fc00\nHID:000600000000000000\n");
    assert_eq!(transmit.stats.reports_seen, 3);
    assert_eq!(transmit.stats.reports_modified, 3);
}

#[test]
fn closed_receiver_ends_capture_and_session() {
    let mut channel = RelayChannel::new(4, 1).unwrap();
    channel.close_receiver();
    let reads = vec![CaptureEvent::Report(vec![0, 1, 0, 0, 0, 0, 0, 0, 0])];
    let (capture, handed_off) = drive_capture(reads, &mut channel);
    assert_eq!(capture.state, km_relay::capture::CaptureState::Stopped(StopReason::ChannelClosed));
    assert_eq!(handed_off, 0);
    let mut o = Orchestrator::new(1);
    assert_eq!(o.step(SupervisorEvent::TransmitExited { fatal: false }), SupervisorAction::CancelCaptures);
    assert_eq!(
        o.step(SupervisorEvent::CaptureExited { source: 0, reason: StopReason::ChannelClosed }),
        SupervisorAction::Finish(Ok(()))
    );
}
