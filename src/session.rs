use vstd::prelude::*;

use crate::config::{SimulationConfig, WebSocketConfig};
use crate::engine::{EngineControl, EngineModel, clamp_particles, normalize_fps};

verus! {

/// Statistics go out on every frame number that is a multiple of this.
pub const STATS_EVERY_FRAMES: u64 = 30;

/// A client request, with the parts of a new configuration that decide what
/// the engine does (the physical constants travel beside it).
#[derive(Clone, Copy, Debug, PartialEq, Eq, Structural)]
pub enum ClientCommand {
    UpdateConfig { particle_count: usize, visual_fps: u32, debug: bool },
    Reset,
    Pause,
    Resume,
}

/// One inbound frame of the connection. A text frame carries the request
/// it parsed to, or `None` when it did not parse.
#[derive(Clone, Copy, Debug, PartialEq, Eq, Structural)]
pub enum InboundFrame {
    Ping,
    Pong,
    Text(Option<ClientCommand>),
    Binary,
    Close,
    Failed,
}

/// What the connection does with an inbound frame.
#[derive(Clone, Copy, Debug, PartialEq, Eq, Structural)]
pub enum FrameAction {
    /// Answer the ping.
    Pong,
    /// Nothing to do.
    Ignore,
    /// Apply the request to the engine.
    Dispatch(ClientCommand),
    /// Send an error message; the connection stays open.
    ReplyParseError,
    /// Close the connection and end the session.
    Close,
    /// End the session.
    Stop,
}

/// What the heartbeat timer does.
#[derive(Clone, Copy, Debug, PartialEq, Eq, Structural)]
pub enum HeartbeatAction {
    Ping,
    Disconnect,
}

/// What a tick sends.
#[derive(Clone, Copy, Debug, PartialEq, Eq, Structural)]
pub struct TickOutput {
    pub send_state: bool,
    pub send_stats: bool,
}

/// What answers a request that was applied to the engine.
#[derive(Clone, Copy, Debug, PartialEq, Eq, Structural)]
pub enum CommandReply {
    /// Send the engine's configuration as it now stands.
    EchoConfig,
    /// Send a snapshot now, before the next scheduled one.
    SendState,
    /// No reply.
    Nothing,
}

/// The result of applying a request: the reply, and whether the population
/// must be generated anew.
#[derive(Clone, Copy, Debug, PartialEq, Eq, Structural)]
pub struct CommandOutcome {
    pub reply: CommandReply,
    pub regenerate: bool,
}

/// Milliseconds from `start` to `now` on a monotonic clock (zero if the
/// clock reading is earlier).
pub open spec fn elapsed_ms(now: u64, start: u64) -> int {
    if now >= start { now - start } else { 0 }
}

/// Least time between two snapshots at `visual_fps` frames per second.
pub open spec fn render_interval_ms(visual_fps: u32) -> int {
    1000int / (normalize_fps(visual_fps) as int)
}

/// The schedule of one connection: when it last heard from the client, last
/// sent a snapshot and last advanced the physics. Times are readings of a
/// monotonic clock in milliseconds.
pub struct Session {
    heartbeat_interval_sec: u64,
    client_timeout_sec: u64,
    update_rate_ms: u64,
    last_heartbeat: u64,
    last_render: u64,
    last_physics_update: u64,
}

/// The schedule as the contracts see it.
pub struct SessionModel {
    pub heartbeat_interval_sec: u64,
    pub client_timeout_sec: u64,
    pub update_rate_ms: u64,
    pub last_heartbeat: u64,
    pub last_render: u64,
    pub last_physics_update: u64,
}

impl View for Session {
    type V = SessionModel;

    closed spec fn view(&self) -> SessionModel {
        SessionModel {
            heartbeat_interval_sec: self.heartbeat_interval_sec,
            client_timeout_sec: self.client_timeout_sec,
            update_rate_ms: self.update_rate_ms,
            last_heartbeat: self.last_heartbeat,
            last_render: self.last_render,
            last_physics_update: self.last_physics_update,
        }
    }
}

impl Session {
    /// A session opened at `now`: the client counts as just heard from, and
    /// the render and physics clocks start at `now`.
    pub fn new(ws_config: &WebSocketConfig, sim_config: &SimulationConfig, now: u64) -> (r: Session)
        ensures
            r@ == (SessionModel {
                heartbeat_interval_sec: ws_config.heartbeat_interval_sec,
                client_timeout_sec: ws_config.client_timeout_sec,
                update_rate_ms: sim_config.update_rate_ms,
                last_heartbeat: now,
                last_render: now,
                last_physics_update: now,
            }),
    {
        Session {
            heartbeat_interval_sec: ws_config.heartbeat_interval_sec,
            client_timeout_sec: ws_config.client_timeout_sec,
            update_rate_ms: sim_config.update_rate_ms,
            last_heartbeat: now,
            last_render: now,
            last_physics_update: now,
        }
    }

    pub fn heartbeat_interval_sec(&self) -> (r: u64)
        ensures
            r == self@.heartbeat_interval_sec,
    {
        self.heartbeat_interval_sec
    }

    pub fn update_rate_ms(&self) -> (r: u64)
        ensures
            r == self@.update_rate_ms,
    {
        self.update_rate_ms
    }

    /// Decides on an inbound frame received at `now`. Pings, pongs and text
    /// count as signs of life; a text that did not parse is answered with an
    /// error and the connection stays open.
    pub fn handle_frame(&mut self, frame: InboundFrame, now: u64) -> (action: FrameAction)
        ensures
            final(self)@ == (match frame {
                InboundFrame::Ping | InboundFrame::Pong | InboundFrame::Text(_) => SessionModel {
                    last_heartbeat: now,
                    ..old(self)@
                },
                _ => old(self)@,
            }),
            action == match frame {
                InboundFrame::Ping => FrameAction::Pong,
                InboundFrame::Pong => FrameAction::Ignore,
                InboundFrame::Text(Some(c)) => FrameAction::Dispatch(c),
                InboundFrame::Text(None) => FrameAction::ReplyParseError,
                InboundFrame::Binary => FrameAction::Ignore,
                InboundFrame::Close => FrameAction::Close,
                InboundFrame::Failed => FrameAction::Stop,
            },
    {
        match frame {
            InboundFrame::Ping => {
                self.last_heartbeat = now;
                FrameAction::Pong
            },
            InboundFrame::Pong => {
                self.last_heartbeat = now;
                FrameAction::Ignore
            },
            InboundFrame::Text(parsed) => {
                self.last_heartbeat = now;
                match parsed {
                    Some(c) => FrameAction::Dispatch(c),
                    None => FrameAction::ReplyParseError,
                }
            },
            InboundFrame::Binary => FrameAction::Ignore,
            InboundFrame::Close => FrameAction::Close,
            InboundFrame::Failed => FrameAction::Stop,
        }
    }

    /// The heartbeat timer at `now`: disconnect when the client has given no
    /// sign of life for more than the timeout, else ping it.
    pub fn check_heartbeat(&self, now: u64) -> (action: HeartbeatAction)
        ensures
            (action == HeartbeatAction::Disconnect) <==> elapsed_ms(now, self@.last_heartbeat)
                > self@.client_timeout_sec * 1000,
    {
        let since: u64 = if now >= self.last_heartbeat { now - self.last_heartbeat } else { 0 };
        let limit: u128 = (self.client_timeout_sec as u128) * 1000;
        if (since as u128) > limit {
            HeartbeatAction::Disconnect
        } else {
            HeartbeatAction::Ping
        }
    }

    /// The physics timer at `now`: the engine is stepped when at least the
    /// update interval has passed since the last step, which is then `now`.
    pub fn physics_due(&mut self, now: u64) -> (due: bool)
        ensures
            due == (elapsed_ms(now, old(self)@.last_physics_update) >= old(self)@.update_rate_ms),
            final(self)@ == if due {
                SessionModel { last_physics_update: now, ..old(self)@ }
            } else {
                old(self)@
            },
    {
        let since: u64 = if now >= self.last_physics_update { now - self.last_physics_update } else { 0 };
        if since >= self.update_rate_ms {
            self.last_physics_update = now;
            true
        } else {
            false
        }
    }

    /// After a step that reached `frame_number` at `now`: a snapshot goes
    /// out when at least `1000 / visual_fps` ms have passed since the last
    /// one, which is then `now`; statistics go out on every
    /// `STATS_EVERY_FRAMES`-th frame, whatever the render gate says.
    pub fn after_tick(&mut self, now: u64, frame_number: u64, visual_fps: u32) -> (out: TickOutput)
        ensures
            out.send_state == (elapsed_ms(now, old(self)@.last_render) >= render_interval_ms(
                visual_fps,
            )),
            out.send_stats == (frame_number % STATS_EVERY_FRAMES == 0),
            final(self)@ == if out.send_state {
                SessionModel { last_render: now, ..old(self)@ }
            } else {
                old(self)@
            },
    {
        let fps: u32 = if visual_fps == 0 { 1 } else { visual_fps };
        let interval: u64 = 1000 / (fps as u64);
        let since: u64 = if now >= self.last_render { now - self.last_render } else { 0 };
        let send_state = since >= interval;
        if send_state {
            self.last_render = now;
        }
        TickOutput { send_state, send_stats: frame_number % STATS_EVERY_FRAMES == 0 }
    }
}

/// Applies a client request to the engine. A new configuration is taken and
/// echoed back; a reset starts the engine over at frame zero and asks for a
/// snapshot at once; pause and resume set the pause flag and need no reply.
pub fn apply_command(engine: &mut EngineControl, command: ClientCommand) -> (out: CommandOutcome)
    ensures
        match command {
            ClientCommand::UpdateConfig { particle_count, visual_fps, debug } => {
                &&& out.reply == CommandReply::EchoConfig
                &&& out.regenerate == (clamp_particles(particle_count) != old(
                    engine,
                )@.particle_count)
                &&& final(engine)@ == (EngineModel {
                    particle_count: clamp_particles(particle_count),
                    visual_fps: normalize_fps(visual_fps),
                    debug,
                    paused: old(engine)@.paused,
                    frame_number: if out.regenerate {
                        0
                    } else {
                        old(engine)@.frame_number
                    },
                })
            },
            ClientCommand::Reset => {
                &&& out.reply == CommandReply::SendState
                &&& out.regenerate
                &&& final(engine)@ == (EngineModel { frame_number: 0, ..old(engine)@ })
            },
            ClientCommand::Pause => {
                &&& out.reply == CommandReply::Nothing
                &&& !out.regenerate
                &&& final(engine)@ == (EngineModel { paused: true, ..old(engine)@ })
            },
            ClientCommand::Resume => {
                &&& out.reply == CommandReply::Nothing
                &&& !out.regenerate
                &&& final(engine)@ == (EngineModel { paused: false, ..old(engine)@ })
            },
        },
{
    match command {
        ClientCommand::UpdateConfig { particle_count, visual_fps, debug } => {
            let regenerate = engine.update_config(particle_count, visual_fps, debug);
            CommandOutcome { reply: CommandReply::EchoConfig, regenerate }
        },
        ClientCommand::Reset => {
            engine.reset();
            CommandOutcome { reply: CommandReply::SendState, regenerate: true }
        },
        ClientCommand::Pause => {
            engine.set_paused(true);
            CommandOutcome { reply: CommandReply::Nothing, regenerate: false }
        },
        ClientCommand::Resume => {
            engine.set_paused(false);
            CommandOutcome { reply: CommandReply::Nothing, regenerate: false }
        },
    }
}

} // verus!
