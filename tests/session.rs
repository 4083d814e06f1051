use n_body::config::{SimulationConfig, WebSocketConfig};
use n_body::session::{
    ClientCommand, FrameAction, HeartbeatAction, InboundFrame, Session, TickOutput,
};

fn session_at(now: u64) -> Session {
    let ws = WebSocketConfig { heartbeat_interval_sec: 5, client_timeout_sec: 10 };
    let sim = SimulationConfig { default_particles: 1000, update_rate_ms: 33, stats_frequency: 30 };
    Session::new(&ws, &sim, now)
}

#[test]
fn frames_map_to_actions() {
    let mut s = session_at(0);
    assert_eq!(s.handle_frame(InboundFrame::Ping, 1), FrameAction::Pong);
    assert_eq!(s.handle_frame(InboundFrame::Pong, 2), FrameAction::Ignore);
    assert_eq!(
        s.handle_frame(InboundFrame::Text(Some(ClientCommand::Reset)), 3),
        FrameAction::Dispatch(ClientCommand::Reset)
    );
    assert_eq!(s.handle_frame(InboundFrame::Text(None), 4), FrameAction::ReplyParseError);
    assert_eq!(s.handle_frame(InboundFrame::Binary, 5), FrameAction::Ignore);
    assert_eq!(s.handle_frame(InboundFrame::Close, 6), FrameAction::Close);
    assert_eq!(s.handle_frame(InboundFrame::Failed, 7), FrameAction::Stop);
}

#[test]
fn heartbeat_times_out_after_limit() {
    let s = session_at(1000);
    assert_eq!(s.check_heartbeat(6000), HeartbeatAction::Ping);
    assert_eq!(s.check_heartbeat(11000), HeartbeatAction::Ping);
    assert_eq!(s.check_heartbeat(11001), HeartbeatAction::Disconnect);
}

#[test]
fn signs_of_life_postpone_timeout() {
    let mut s = session_at(0);
    s.handle_frame(InboundFrame::Pong, 9000);
    assert_eq!(s.check_heartbeat(15000), HeartbeatAction::Ping);
    s.handle_frame(InboundFrame::Binary, 18000);
    assert_eq!(s.check_heartbeat(19001), HeartbeatAction::Disconnect);
}

#[test]
fn physics_ticks_at_update_rate() {
    let mut s = session_at(0);
    assert!(!s.physics_due(32));
    assert!(s.physics_due(33));
    assert!(!s.physics_due(60));
    assert!(s.physics_due(66));
}

#[test]
fn render_gate_limits_snapshots() {
    let mut s = session_at(0);
    // 30 fps: 33 ms between snapshots.
    assert_eq!(s.after_tick(20, 1, 30), TickOutput { send_state: false, send_stats: false });
    assert_eq!(s.after_tick(33, 2, 30), TickOutput { send_state: true, send_stats: false });
    assert_eq!(s.after_tick(50, 3, 30), TickOutput { send_state: false, send_stats: false });
    assert_eq!(s.after_tick(66, 30, 30), TickOutput { send_state: true, send_stats: true });
}

#[test]
fn stats_follow_frame_number_not_render_gate() {
    let mut s = session_at(0);
    let out = s.after_tick(1, 60, 1);
    assert!(!out.send_state);
    assert!(out.send_stats);
}

#[test]
fn zero_fps_is_treated_as_one() {
    let mut s = session_at(0);
    assert!(!s.after_tick(999, 1, 0).send_state);
    assert!(s.after_tick(1000, 2, 0).send_state);
}
