use al_engine::frame_sync::FrameSync;
use al_engine::frame_sync::SlotEvent;
use al_engine::frame_sync::SlotState;

#[test]
fn slots_start_signaled_at_index_zero() {
    let fs = FrameSync::new(3);
    assert_eq!(fs.current_slot(), 0);
    for k in 0..3 {
        assert!(matches!(fs.slot_state(k), SlotState::Ready));
    }
    assert!(fs.events().is_empty());
}

#[test]
fn begin_submit_signal_cycle() {
    let mut fs = FrameSync::new(2);
    let k = fs.begin_frame();
    assert_eq!(k, 0);
    assert!(matches!(fs.slot_state(0), SlotState::Recording));
    fs.submit(0);
    assert!(matches!(fs.slot_state(0), SlotState::InFlight));
    fs.signal(0);
    assert!(matches!(fs.slot_state(0), SlotState::Ready));
    fs.end_frame();
    assert_eq!(fs.current_slot(), 1);
}

#[test]
fn round_robin_wraps() {
    let mut fs = FrameSync::new(2);
    fs.end_frame();
    assert_eq!(fs.current_slot(), 1);
    fs.end_frame();
    assert_eq!(fs.current_slot(), 0);
}

#[test]
fn abort_returns_slot_without_logging_a_submission() {
    let mut fs = FrameSync::new(2);
    fs.begin_frame();
    fs.abort_frame(0);
    assert!(matches!(fs.slot_state(0), SlotState::Ready));
    assert_eq!(fs.events().as_slice(), &[SlotEvent::Waited(0)]);
}

#[test]
fn wait_idle_completes_every_in_flight_slot() {
    let mut fs = FrameSync::new(2);
    fs.begin_frame();
    fs.submit(0);
    fs.end_frame();
    fs.begin_frame();
    fs.submit(1);
    fs.wait_idle();
    assert!(matches!(fs.slot_state(0), SlotState::Ready));
    assert!(matches!(fs.slot_state(1), SlotState::Ready));
}

/// The mock-fence record: over many frames on two slots, every two
/// submissions of the same slot have a wait on that slot between them.
#[test]
fn log_shows_wait_before_every_reuse() {
    let mut fs = FrameSync::new(2);
    for _ in 0..6 {
        let k = fs.begin_frame();
        fs.submit(k);
        // the GPU finishes this slot's work before its next reuse
        fs.signal(k);
        fs.end_frame();
    }
    let log = fs.events().clone();
    assert_eq!(log.len(), 12);
    for i in 0..log.len() {
        for j in (i + 1)..log.len() {
            let (SlotEvent::Submitted(a), SlotEvent::Submitted(b)) = (log[i], log[j]) else {
                continue;
            };
            if a != b {
                continue;
            }
            let waited_between = log[i + 1..j]
                .iter()
                .any(|e| matches!(e, SlotEvent::Waited(w) if *w == a));
            assert!(waited_between, "slot {a} reused without an observed wait");
        }
    }
}
