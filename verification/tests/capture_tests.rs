use km_relay::backoff::BackoffPolicy;
use km_relay::capture::{CaptureAction, CaptureEvent, CaptureLoop, CaptureState, StopReason};
use km_relay::message::{RelayMessage, RelayPayload, ReportOrigin};
use km_relay::modifier::{Config, InputModifier};
use km_relay::multiplier::Multiplier;
use km_relay::report::{DecodeError, MouseReport, ReportLayout};

fn modifier(sensitivity: f32, remap: bool, deadzone: u16) -> InputModifier {
    InputModifier::new(Config {
        sensitivity: Multiplier::from_f32_bits(sensitivity.to_bits()).unwrap(),
        remap_buttons: remap,
        deadzone_threshold: deadzone,
        max_acceleration: Multiplier::new(5, 1).unwrap(),
    })
}

fn reading(origin: ReportOrigin) -> CaptureLoop {
    let m = modifier(1.0, false, 0);
    let mut l = CaptureLoop::new(origin, BackoffPolicy::capped_exponential(10, 35));
    assert_eq!(l.step(CaptureEvent::Resumed, &m), CaptureAction::Open);
    assert_eq!(l.step(CaptureEvent::Opened, &m), CaptureAction::Read);
    assert_eq!(l.state, CaptureState::Reading);
    l
}

fn all_events() -> Vec<CaptureEvent> {
    vec![
        CaptureEvent::Resumed,
        CaptureEvent::Opened,
        CaptureEvent::OpenFailed,
        CaptureEvent::Report(vec![0, 1, 0, 1, 0, 1, 1, 0, 0]),
        CaptureEvent::Timeout,
        CaptureEvent::ReadFailed,
        CaptureEvent::Accepted,
        CaptureEvent::ChannelClosed,
        CaptureEvent::Shutdown,
    ]
}

fn in_state(state: CaptureState) -> CaptureLoop {
    let mut l = CaptureLoop::new(ReportOrigin::Pointer, BackoffPolicy::fixed(10));
    l.state = state;
    l
}

#[test]
fn new_loop_is_idle() {
    let l = CaptureLoop::new(ReportOrigin::Pointer, BackoffPolicy::fixed(10));
    assert_eq!(l.state, CaptureState::Idle);
    assert_eq!(l.origin, ReportOrigin::Pointer);
    assert_eq!(l.failures, 0);
    assert_eq!(l.backoff, BackoffPolicy::fixed(10));
    assert!(!l.is_stopped());
}

#[test]
fn open_failure_is_fatal_to_the_loop() {
    let m = modifier(1.0, false, 0);
    let mut l = CaptureLoop::new(ReportOrigin::Pointer, BackoffPolicy::fixed(10));
    assert_eq!(l.step(CaptureEvent::Resumed, &m), CaptureAction::Open);
    assert_eq!(l.step(CaptureEvent::OpenFailed, &m), CaptureAction::Stop(StopReason::OpenFailed));
    assert_eq!(l.state, CaptureState::Stopped(StopReason::OpenFailed));
    assert!(l.is_stopped());
}

#[test]
fn report_is_decoded_transformed_and_handed_off() {
    let m = modifier(2.0, true, 0);
    let mut l = reading(ReportOrigin::Pointer);
    let raw = vec![0x00, 0x0A, 0x00, 0xF6, 0xFF, 0x01, 0x05, 0x00, 0x00];
    let action = l.step(CaptureEvent::Report(raw), &m);
    let expected = RelayMessage {
        origin: ReportOrigin::Pointer,
        payload: RelayPayload::Pointer {
            report: MouseReport { buttons: 0x02, dx: 20, dy: -20, wheel: 5 },
            layout: ReportLayout::Wide,
            modified: true,
        },
    };
    assert_eq!(action, CaptureAction::Enqueue(expected));
    assert_eq!(l.state, CaptureState::Decoded);
    assert_eq!(l.step(CaptureEvent::Accepted, &m), CaptureAction::Proceed);
    assert_eq!(l.state, CaptureState::Enqueued);
    assert_eq!(l.step(CaptureEvent::Resumed, &m), CaptureAction::Read);
    assert_eq!(l.state, CaptureState::Reading);
}

#[test]
fn narrow_report_keeps_its_layout() {
    let m = modifier(1.0, false, 0);
    let mut l = reading(ReportOrigin::Pointer);
    let action = l.step(CaptureEvent::Report(vec![0x01, 0x05, 0xFB, 0x00, 0x77]), &m);
    let expected = RelayMessage {
        origin: ReportOrigin::Pointer,
        payload: RelayPayload::Pointer {
            report: MouseReport { buttons: 0x01, dx: 5, dy: -5, wheel: 0 },
            layout: ReportLayout::Narrow,
            modified: false,
        },
    };
    assert_eq!(action, CaptureAction::Enqueue(expected));
}

#[test]
fn short_report_is_discarded_and_loop_goes_on() {
    let m = modifier(1.0, false, 0);
    let mut l = reading(ReportOrigin::Pointer);
    assert_eq!(
        l.step(CaptureEvent::Report(vec![1, 2, 3]), &m),
        CaptureAction::Discard(DecodeError::TooShort)
    );
    assert_eq!(l.state, CaptureState::DecodeFailed);
    assert_eq!(l.step(CaptureEvent::Resumed, &m), CaptureAction::Read);
    assert_eq!(l.state, CaptureState::Reading);
}

#[test]
fn idle_report_is_passed_over() {
    let m = modifier(2.0, true, 0);
    let mut l = reading(ReportOrigin::Pointer);
    assert_eq!(l.step(CaptureEvent::Report(vec![0; 9]), &m), CaptureAction::Read);
    assert_eq!(l.state, CaptureState::Reading);
    assert_eq!(l.step(CaptureEvent::Report(vec![0; 4]), &m), CaptureAction::Read);
    assert_eq!(l.step(CaptureEvent::Report(vec![9, 0, 0, 0, 0, 0, 0, 9, 9]), &m), CaptureAction::Read);
}

#[test]
fn report_zeroed_by_the_deadzone_is_still_sent() {
    let m = modifier(1.0, false, 50);
    let mut l = reading(ReportOrigin::Pointer);
    let action = l.step(CaptureEvent::Report(vec![0, 3, 0, 0, 0, 0, 0, 0, 0]), &m);
    let expected = RelayMessage {
        origin: ReportOrigin::Pointer,
        payload: RelayPayload::Pointer {
            report: MouseReport { buttons: 0, dx: 0, dy: 0, wheel: 0 },
            layout: ReportLayout::Wide,
            modified: true,
        },
    };
    assert_eq!(action, CaptureAction::Enqueue(expected));
}

#[test]
fn wheel_only_report_is_sent_unmodified() {
    let m = modifier(2.0, false, 0);
    let mut l = reading(ReportOrigin::Pointer);
    let action = l.step(CaptureEvent::Report(vec![0, 0, 0, 0, 0, 0, 0xFF, 0, 0]), &m);
    let expected = RelayMessage {
        origin: ReportOrigin::Pointer,
        payload: RelayPayload::Pointer {
            report: MouseReport { buttons: 0, dx: 0, dy: 0, wheel: -1 },
            layout: ReportLayout::Wide,
            modified: false,
        },
    };
    assert_eq!(action, CaptureAction::Enqueue(expected));
}

#[test]
fn auxiliary_bytes_are_carried_as_they_came() {
    let m = modifier(2.0, true, 0);
    let mut l = reading(ReportOrigin::Auxiliary);
    let action = l.step(CaptureEvent::Report(vec![1, 2, 3]), &m);
    let expected =
        RelayMessage { origin: ReportOrigin::Auxiliary, payload: RelayPayload::Opaque(vec![1, 2, 3]) };
    assert_eq!(action, CaptureAction::Enqueue(expected));
    assert_eq!(l.state, CaptureState::Decoded);
}

#[test]
fn timeout_is_no_error() {
    let m = modifier(1.0, false, 0);
    let mut l = reading(ReportOrigin::Pointer);
    for _ in 0..5 {
        assert_eq!(l.step(CaptureEvent::Timeout, &m), CaptureAction::Read);
        assert_eq!(l.state, CaptureState::Reading);
        assert_eq!(l.failures, 0);
    }
}

#[test]
fn read_fault_backs_off_and_retries() {
    let m = modifier(1.0, false, 0);
    let mut l = reading(ReportOrigin::Pointer);
    for (n, delay) in [10u64, 20, 35, 35].into_iter().enumerate() {
        assert_eq!(l.step(CaptureEvent::ReadFailed, &m), CaptureAction::Backoff(delay));
        assert_eq!(l.state, CaptureState::Reading);
        assert_eq!(l.failures, n as u32 + 1);
        assert_eq!(l.step(CaptureEvent::Resumed, &m), CaptureAction::Read);
    }
    assert_eq!(l.step(CaptureEvent::Timeout, &m), CaptureAction::Read);
    assert_eq!(l.failures, 0);
    assert_eq!(l.step(CaptureEvent::ReadFailed, &m), CaptureAction::Backoff(10));
    assert_eq!(l.step(CaptureEvent::Resumed, &m), CaptureAction::Read);
    assert_eq!(l.step(CaptureEvent::Report(vec![1, 2, 3]), &m), CaptureAction::Discard(DecodeError::TooShort));
    assert_eq!(l.failures, 0);
}

#[test]
fn failure_count_saturates() {
    let m = modifier(1.0, false, 0);
    let mut l = reading(ReportOrigin::Pointer);
    l.failures = u32::MAX;
    assert_eq!(l.step(CaptureEvent::ReadFailed, &m), CaptureAction::Backoff(35));
    assert_eq!(l.failures, u32::MAX);
}

#[test]
fn closed_channel_stops_the_loop() {
    let m = modifier(1.0, false, 0);
    let mut l = reading(ReportOrigin::Auxiliary);
    l.step(CaptureEvent::Report(vec![7]), &m);
    assert_eq!(l.step(CaptureEvent::ChannelClosed, &m), CaptureAction::Stop(StopReason::ChannelClosed));
    assert_eq!(l.state, CaptureState::Stopped(StopReason::ChannelClosed));
}

#[test]
fn shutdown_stops_capture_from_every_state() {
    let m = modifier(1.0, false, 0);
    let states = [
        CaptureState::Idle,
        CaptureState::Reading,
        CaptureState::Decoded,
        CaptureState::Enqueued,
        CaptureState::DecodeFailed,
    ];
    for state in states {
        let mut l = in_state(state);
        assert_eq!(l.step(CaptureEvent::Shutdown, &m), CaptureAction::Stop(StopReason::Cancelled));
        assert_eq!(l.state, CaptureState::Stopped(StopReason::Cancelled));
        assert!(l.is_stopped());
    }
}

#[test]
fn stopped_loop_stays_stopped() {
    let m = modifier(1.0, false, 0);
    for reason in [StopReason::OpenFailed, StopReason::ChannelClosed, StopReason::Cancelled] {
        for event in all_events() {
            let mut l = in_state(CaptureState::Stopped(reason));
            assert_eq!(l.step(event, &m), CaptureAction::Stop(reason));
            assert_eq!(l.state, CaptureState::Stopped(reason));
        }
    }
}

#[test]
fn unawaited_events_change_nothing() {
    let m = modifier(1.0, false, 0);
    let cases = [
        (CaptureState::Idle, CaptureEvent::Timeout),
        (CaptureState::Idle, CaptureEvent::Report(vec![1, 1, 1, 1])),
        (CaptureState::Idle, CaptureEvent::Accepted),
        (CaptureState::Reading, CaptureEvent::Opened),
        (CaptureState::Reading, CaptureEvent::Accepted),
        (CaptureState::Reading, CaptureEvent::ChannelClosed),
        (CaptureState::Decoded, CaptureEvent::Resumed),
        (CaptureState::Decoded, CaptureEvent::ReadFailed),
        (CaptureState::Enqueued, CaptureEvent::Timeout),
        (CaptureState::DecodeFailed, CaptureEvent::OpenFailed),
    ];
    for (state, event) in cases {
        let mut l = in_state(state);
        l.failures = 3;
        assert_eq!(l.step(event, &m), CaptureAction::Proceed);
        assert_eq!(l.state, state);
        assert_eq!(l.failures, 3);
    }
}

#[test]
fn only_three_things_stop_a_loop() {
    let m = modifier(1.0, false, 0);
    let states = [
        CaptureState::Idle,
        CaptureState::Reading,
        CaptureState::Decoded,
        CaptureState::Enqueued,
        CaptureState::DecodeFailed,
    ];
    for state in states {
        for event in all_events() {
            let due = matches!(event, CaptureEvent::Shutdown)
                || (state == CaptureState::Idle && matches!(event, CaptureEvent::OpenFailed))
                || (state == CaptureState::Decoded && matches!(event, CaptureEvent::ChannelClosed));
            let mut l = in_state(state);
            l.step(event, &m);
            assert_eq!(l.is_stopped(), due);
        }
    }
}
