use pixel_pipeline::engine::EngineError;
use pixel_pipeline::engine::TransferEngine;
use pixel_pipeline::engine::TransferOutcome;
use pixel_pipeline::engine::Transport;
use pixel_pipeline::frame::FrameBuffer;

#[test]
fn submit_then_wait_returns_the_submitted_buffer_unchanged() {
    let mut engine = TransferEngine::new();
    let mut fb = FrameBuffer::new(6, 4, 0);
    assert!(fb.set(3, 2, 0xbeef));
    assert!(fb.set(0, 0, 0x0042));
    let transport = Transport { id: 7 };

    assert!(engine.submit(fb, transport).is_ok());
    assert!(engine.in_flight());

    let (transport_back, fb_back) = engine.wait(TransferOutcome::Done).unwrap();
    assert!(!engine.in_flight());
    // The very transport token and buffer come back, payload intact.
    assert_eq!(transport_back.id, 7);
    assert_eq!(fb_back.len(), 24);
    assert_eq!(fb_back.get(3, 2), Some(0xbeef));
    assert_eq!(fb_back.get(0, 0), Some(0x0042));
    for y in 0..4 {
        for x in 0..6 {
            if (x, y) != (3, 2) && (x, y) != (0, 0) {
                assert_eq!(fb_back.get(x, y), Some(0));
            }
        }
    }
}

#[test]
fn second_submit_while_in_flight_is_rejected_with_resources_returned() {
    let mut engine = TransferEngine::new();
    let first = FrameBuffer::new(2, 2, 1);
    assert!(engine.submit(first, Transport { id: 1 }).is_ok());

    let mut second = FrameBuffer::new(2, 2, 2);
    assert!(second.set(1, 1, 0x7777));
    match engine.submit(second, Transport { id: 2 }) {
        Ok(()) => panic!("a second submission while in flight must be refused"),
        Err((fb_back, transport_back)) => {
            // Nothing is queued or dropped: the rejected resources come back.
            assert_eq!(transport_back.id, 2);
            assert_eq!(fb_back.get(1, 1), Some(0x7777));
            assert_eq!(fb_back.get(0, 0), Some(2));
        },
    }
    // The engine still holds the first transfer.
    assert!(engine.in_flight());
    let (transport_back, fb_back) = engine.wait(TransferOutcome::Done).unwrap();
    assert_eq!(transport_back.id, 1);
    assert_eq!(fb_back.get(0, 0), Some(1));
}

#[test]
fn wait_with_nothing_in_flight_is_refused() {
    let mut engine = TransferEngine::new();
    match engine.wait(TransferOutcome::Done) {
        Err(e) => assert_eq!(e, EngineError::NotInFlight),
        Ok(_) => panic!("wait with nothing in flight must be refused"),
    }
}

#[test]
fn transport_fault_is_fatal() {
    let mut engine = TransferEngine::new();
    let fb = FrameBuffer::new(2, 2, 0);
    assert!(engine.submit(fb, Transport { id: 9 }).is_ok());

    match engine.wait(TransferOutcome::Fault) {
        Err(e) => assert_eq!(e, EngineError::TransferFault),
        Ok(_) => panic!("a reported fault must propagate"),
    }
    // Terminal: the engine accepts nothing further.
    assert!(!engine.in_flight());
    let late = FrameBuffer::new(2, 2, 3);
    assert!(engine.submit(late, Transport { id: 10 }).is_err());
    assert!(engine.wait(TransferOutcome::Done).is_err());
}
