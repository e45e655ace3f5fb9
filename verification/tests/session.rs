use pixel_pipeline::color::pack;
use pixel_pipeline::color::split;
use pixel_pipeline::engine::TransferOutcome;
use pixel_pipeline::engine::Transport;
use pixel_pipeline::pattern::PatternConfig;
use pixel_pipeline::pattern::PatternKind;
use pixel_pipeline::session::DisplaySession;
use pixel_pipeline::session::SessionError;

fn reference_config() -> PatternConfig {
    PatternConfig { width: 240, height: 240, rect_w: 10, rect_h: 10, step_x: 1, step_y: 8 }
}

#[test]
fn first_tick_renders_and_submits() {
    let c = reference_config();
    let mut session = DisplaySession::new(c, PatternKind::Rectangle, Transport { id: 1 });
    let bytes = session.tick(TransferOutcome::Done).unwrap();
    // One tick in: the rectangle sits at (1, 8) with phase 1.
    assert_eq!(session.state.x, 1);
    assert_eq!(session.state.y, 8);
    assert_eq!(session.state.phase, 1);
    assert_eq!(session.frames, 1);
    // The wire stream carries the full frame, two bytes per pixel.
    assert_eq!(bytes.len(), 2 * 240 * 240);
    // The rectangle's top-left pixel, big-endian at its row-major offset.
    let (hi, lo) = split(pack(1, 8, 1));
    let offset = 2 * (8 * 240 + 1);
    assert_eq!(bytes[offset], hi);
    assert_eq!(bytes[offset + 1], lo);
    // A background pixel is black.
    assert_eq!(bytes[0], 0);
    assert_eq!(bytes[1], 0);
}

#[test]
fn rectangle_scenario_y_wraps_at_tick_29() {
    let c = reference_config();
    let mut session = DisplaySession::new(c, PatternKind::Rectangle, Transport { id: 1 });
    // Through 28 ticks y climbs by 8 per tick and never wraps: 8 * 28 = 224 < 230.
    for t in 1..=28u64 {
        session.tick(TransferOutcome::Done).unwrap();
        assert_eq!(session.state.x, (t as usize) % 230);
        assert_eq!(session.state.y, 8 * t as usize);
    }
    // The 29th tick carries y past the 230 bound: 232 wraps to 2.
    session.tick(TransferOutcome::Done).unwrap();
    assert_eq!(session.state.y, 2);
    assert_eq!(session.frames, 29);
}

#[test]
fn gradient_ticks_change_every_pixels_low_bits() {
    let c = reference_config();
    let mut session = DisplaySession::new(c, PatternKind::Gradient, Transport { id: 1 });
    let first = session.tick(TransferOutcome::Done).unwrap();
    let second = session.tick(TransferOutcome::Done).unwrap();
    assert_eq!(first.len(), second.len());
    // Frame to frame the phase steps by one: in every pixel the high
    // (coordinate-driven) bits stay put and the low (phase-driven) bits move.
    for i in 0..first.len() / 2 {
        let p1 = u16::from(first[2 * i]) * 256 + u16::from(first[2 * i + 1]);
        let p2 = u16::from(second[2 * i]) * 256 + u16::from(second[2 * i + 1]);
        assert_eq!(p1 / 32, p2 / 32);
        assert_ne!(p1 % 32, p2 % 32);
    }
}

#[test]
fn fault_halts_the_session_for_good() {
    let c = reference_config();
    let mut session = DisplaySession::new(c, PatternKind::Solid, Transport { id: 4 });
    session.tick(TransferOutcome::Done).unwrap();
    let frames_before = session.frames;
    // The transport reports a bus fault while reclaiming the frame.
    assert_eq!(session.tick(TransferOutcome::Fault), Err(SessionError::TransferFault));
    assert_eq!(session.frames, frames_before);
    // No recovery path: every later tick is refused.
    assert_eq!(session.tick(TransferOutcome::Done), Err(SessionError::Halted));
    assert_eq!(session.tick(TransferOutcome::Done), Err(SessionError::Halted));
}

#[test]
fn solid_frames_are_uniform() {
    let c = reference_config();
    let mut session = DisplaySession::new(c, PatternKind::Solid, Transport { id: 2 });
    for _ in 0..8 {
        session.tick(TransferOutcome::Done).unwrap();
    }
    let bytes = session.tick(TransferOutcome::Done).unwrap();
    // Nine ticks in the phase is 9; every pixel carries the same color.
    assert_eq!(session.state.phase, 9);
    let (hi, lo) = split(pack(9, 9, 9));
    for i in 0..bytes.len() / 2 {
        assert_eq!(bytes[2 * i], hi);
        assert_eq!(bytes[2 * i + 1], lo);
    }
}
