use vstd::prelude::*;

verus! {

/// Largest population the engine accepts: the force pass costs O(n²), and
/// 15 000 particles keep one tick near 100 ms.
pub const MAX_PARTICLES: usize = 15000;

/// Snapshot rate of a new engine, in frames per second.
pub const DEFAULT_VISUAL_FPS: u32 = 30;

/// The engine's state as the contracts see it.
pub struct EngineModel {
    pub particle_count: usize,
    pub visual_fps: u32,
    pub debug: bool,
    pub paused: bool,
    pub frame_number: u64,
}

/// The particle count the engine runs with when `requested` is asked for.
pub open spec fn clamp_particles(requested: usize) -> usize {
    if requested > MAX_PARTICLES { MAX_PARTICLES } else { requested }
}

/// The snapshot rate the engine runs with when `requested` is asked for: a
/// rate of zero would never allow a snapshot, so it is raised to one.
pub open spec fn normalize_fps(requested: u32) -> u32 {
    if requested == 0 { 1 } else { requested }
}

/// The model after one tick: a paused engine stays as it is, a running one
/// advances its frame counter by one.
pub open spec fn stepped(m: EngineModel) -> EngineModel {
    if m.paused {
        m
    } else {
        EngineModel { frame_number: (m.frame_number + 1) as u64, ..m }
    }
}

/// The model after `n` ticks.
pub open spec fn stepped_n(m: EngineModel, n: nat) -> EngineModel
    decreases n,
{
    if n == 0 { m } else { stepped(stepped_n(m, (n - 1) as nat)) }
}

/// Runtime control of the simulation engine: how many particles it holds,
/// how often it may be shown, whether it advances, and which frame it is at.
///
/// The particle data itself is kept beside it by the caller: `reset` and a
/// `true` from `update_config` mean that the population must be generated
/// anew from `particle_count()`, and `step` returning `true` means that the
/// physics must be advanced by one time step.
pub struct EngineControl {
    particle_count: usize,
    visual_fps: u32,
    debug: bool,
    paused: bool,
    frame_number: u64,
}

impl View for EngineControl {
    type V = EngineModel;

    closed spec fn view(&self) -> EngineModel {
        EngineModel {
            particle_count: self.particle_count,
            visual_fps: self.visual_fps,
            debug: self.debug,
            paused: self.paused,
            frame_number: self.frame_number,
        }
    }
}

impl EngineControl {
    /// A running engine at frame zero with `particle_count` particles (at
    /// most `MAX_PARTICLES`).
    pub fn new(particle_count: usize) -> (r: EngineControl)
        ensures
            r@.particle_count == clamp_particles(particle_count),
            r@.visual_fps == DEFAULT_VISUAL_FPS,
            !r@.debug,
            !r@.paused,
            r@.frame_number == 0,
    {
        let count = if particle_count > MAX_PARTICLES { MAX_PARTICLES } else { particle_count };
        EngineControl {
            particle_count: count,
            visual_fps: DEFAULT_VISUAL_FPS,
            debug: false,
            paused: false,
            frame_number: 0,
        }
    }

    /// Starts over at frame zero; the population is generated anew.
    pub fn reset(&mut self)
        ensures
            final(self)@ == (EngineModel { frame_number: 0, ..old(self)@ }),
    {
        self.frame_number = 0;
    }

    /// Takes a new configuration. Returns whether the particle count changed,
    /// in which case the engine has been reset and the population must be
    /// generated anew; otherwise the particles and the frame counter stay.
    pub fn update_config(&mut self, particle_count: usize, visual_fps: u32, debug: bool) -> (regenerate: bool)
        ensures
            regenerate == (clamp_particles(particle_count) != old(self)@.particle_count),
            final(self)@.particle_count == clamp_particles(particle_count),
            final(self)@.visual_fps == normalize_fps(visual_fps),
            final(self)@.debug == debug,
            final(self)@.paused == old(self)@.paused,
            final(self)@.frame_number == if regenerate { 0 } else { old(self)@.frame_number },
    {
        let count = if particle_count > MAX_PARTICLES { MAX_PARTICLES } else { particle_count };
        let regenerate = count != self.particle_count;
        self.particle_count = count;
        self.visual_fps = if visual_fps == 0 { 1 } else { visual_fps };
        self.debug = debug;
        if regenerate {
            self.reset();
        }
        regenerate
    }

    /// Stops or resumes advancement; nothing else changes.
    pub fn set_paused(&mut self, paused: bool)
        ensures
            final(self)@ == (EngineModel { paused, ..old(self)@ }),
    {
        self.paused = paused;
    }

    /// One tick. Returns whether the physics is to advance, which is when the
    /// engine is not paused; the frame counter then moves on by one.
    pub fn step(&mut self) -> (advanced: bool)
        requires
            !old(self)@.paused ==> old(self)@.frame_number < u64::MAX,
        ensures
            advanced == !old(self)@.paused,
            final(self)@ == stepped(old(self)@),
    {
        if self.paused {
            false
        } else {
            self.frame_number = self.frame_number + 1;
            true
        }
    }

    pub fn particle_count(&self) -> (r: usize)
        ensures
            r == self@.particle_count,
    {
        self.particle_count
    }

    pub fn visual_fps(&self) -> (r: u32)
        ensures
            r == self@.visual_fps,
    {
        self.visual_fps
    }

    pub fn debug(&self) -> (r: bool)
        ensures
            r == self@.debug,
    {
        self.debug
    }

    pub fn is_paused(&self) -> (r: bool)
        ensures
            r == self@.paused,
    {
        self.paused
    }

    pub fn frame_number(&self) -> (r: u64)
        ensures
            r == self@.frame_number,
    {
        self.frame_number
    }
}

/// A paused engine stands still: any number of ticks leave its frame counter,
/// and with it the particles and the simulated time, where they were.
pub proof fn lemma_paused_steps_idle(m: EngineModel, n: nat)
    requires
        m.paused,
    ensures
        stepped_n(m, n) == m,
    decreases n,
{
    if n > 0 {
        lemma_paused_steps_idle(m, (n - 1) as nat);
    }
}

/// A running engine counts every tick: `n` ticks move the frame counter on by
/// exactly `n`, when that stays within range.
pub proof fn lemma_running_steps_count(m: EngineModel, n: nat)
    requires
        !m.paused,
        m.frame_number + n <= u64::MAX,
    ensures
        stepped_n(m, n).frame_number == m.frame_number + n,
        stepped_n(m, n).particle_count == m.particle_count,
        !stepped_n(m, n).paused,
    decreases n,
{
    if n > 0 {
        lemma_running_steps_count(m, (n - 1) as nat);
    }
}

/// Reconfiguring keeps the population exactly when the particle count stays
/// the same: an equal count never regenerates, a different one always does.
/// A count above `MAX_PARTICLES` is first brought down to it.
pub proof fn lemma_update_config_regenerates(m: EngineModel, particle_count: usize)
    requires
        m.particle_count <= MAX_PARTICLES,
        particle_count <= MAX_PARTICLES,
    ensures
        (clamp_particles(particle_count) != m.particle_count) <==> (particle_count
            != m.particle_count),
{
}

} // verus!
