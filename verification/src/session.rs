//! The frame orchestrator: one session of the particle field.
//!
//! A session fixes the particle count, the derived layout and the draw
//! strategy at construction, seeds the authoritative store, and then
//! sequences simulation, derivation and presentation once per frame.
//! The GPU work itself is handed to the application as a command plan;
//! the session keeps the byte-level model of the state those commands
//! act on, so the plan and the model are proved against each other.

use crate::derivation::DerivedData;
use crate::layout::{
    authoritative_len, layouts_agree, strategy_matches_layout, DerivedLayout, DrawStrategy,
};
use crate::particle::{records_bytes, ParticleBits};
use crate::plan::{build_plan, frame_order_ok, lemma_plan_ordered, plan_spec, Command};
use crate::store::ParticleStore;
use crate::surface::SurfaceConfig;
use crate::timing::{delta_spec, FrameTimer};
use vstd::prelude::*;

verus! {

/// Why a session cannot be constructed. Construction failures are
/// fatal: no partial session is ever returned.
#[derive(Clone, Copy, Debug, PartialEq, Eq, Structural)]
pub enum SessionError {
    /// The particle count must be positive.
    ZeroParticleCount,
    /// The draw strategy must agree with the derived layout: the point
    /// list draws from the interleaved buffer, the instanced quad from
    /// the split pair.
    LayoutMismatch,
    /// The seed must hold exactly one record per particle.
    SeedCountMismatch,
}

/// One running session of the particle field: fixed configuration,
/// the authoritative store, the derived presentation data, the frame
/// timer and the surface state.
#[derive(Debug)]
pub struct ParticleLife {
    pub num_particles: u32,
    pub layout: DerivedLayout,
    pub strategy: DrawStrategy,
    pub speed_bits: u32,
    pub boundary_force_bits: u32,
    pub timer: FrameTimer,
    pub store: ParticleStore,
    pub derived: DerivedData,
    pub surface: SurfaceConfig,
}

impl ParticleLife {
    /// Session invariant: a positive particle count, an agreeing
    /// strategy/layout pair, a store of exactly that many records, and
    /// derived buffers of the chosen layout sized for them.
    pub open spec fn wf(&self) -> bool {
        &&& self.num_particles > 0
        &&& strategy_matches_layout(self.strategy, self.layout)
        &&& self.store.wf()
        &&& self.store.num_particles == self.num_particles
        &&& self.derived.matches_layout(self.layout)
        &&& self.derived.sized_for(self.num_particles as int)
    }

    /// The construction-time configuration of `self` and `other` agree.
    pub open spec fn same_config(&self, other: &ParticleLife) -> bool {
        &&& self.num_particles == other.num_particles
        &&& self.layout == other.layout
        &&& self.strategy == other.strategy
        &&& self.speed_bits == other.speed_bits
        &&& self.boundary_force_bits == other.boundary_force_bits
    }

    /// Constructs a session: validates the configuration, seeds the
    /// authoritative buffer with the given records, and allocates the
    /// zero-filled derived buffer(s), each sized as `n` records of its
    /// layout's stride.
    pub fn new(
        num_particles: u32,
        layout: DerivedLayout,
        strategy: DrawStrategy,
        speed_bits: u32,
        boundary_force_bits: u32,
        width: u32,
        height: u32,
        particles: &Vec<ParticleBits>,
    ) -> (r: Result<ParticleLife, SessionError>)
        requires
            32 * (num_particles as int) <= usize::MAX,
        ensures
            r is Ok <==> (num_particles > 0 && strategy_matches_layout(strategy, layout)
                && particles@.len() == num_particles as int),
            num_particles == 0 ==> r == Err::<ParticleLife, SessionError>(
                SessionError::ZeroParticleCount,
            ),
            num_particles > 0 && !strategy_matches_layout(strategy, layout) ==> r == Err::<
                ParticleLife,
                SessionError,
            >(SessionError::LayoutMismatch),
            num_particles > 0 && strategy_matches_layout(strategy, layout) && particles@.len()
                != num_particles as int ==> r == Err::<ParticleLife, SessionError>(
                SessionError::SeedCountMismatch,
            ),
            r matches Ok(s) ==> {
                &&& s.wf()
                &&& s.num_particles == num_particles
                &&& s.layout == layout
                &&& s.strategy == strategy
                &&& s.speed_bits == speed_bits
                &&& s.boundary_force_bits == boundary_force_bits
                &&& s.timer.last is None
                &&& s.surface == (SurfaceConfig { width, height })
                &&& s.store.bytes@ == records_bytes(particles@)
                &&& s.derived.all_zero()
            },
    {
        if num_particles == 0 {
            return Err(SessionError::ZeroParticleCount);
        }
        if !layouts_agree(strategy, layout) {
            return Err(SessionError::LayoutMismatch);
        }
        if particles.len() != num_particles as usize {
            return Err(SessionError::SeedCountMismatch);
        }
        let store = ParticleStore::seed(num_particles, particles);
        let derived = DerivedData::new_zeroed(layout, num_particles);
        Ok(
            ParticleLife {
                num_particles,
                layout,
                strategy,
                speed_bits,
                boundary_force_bits,
                timer: FrameTimer::new(),
                store,
                derived,
                surface: SurfaceConfig { width, height },
            },
        )
    }

    /// Runs one frame. The clock sample `now_ticks` times the frame;
    /// the timer advances exactly once whether or not the frame is
    /// rendered. When the application failed to acquire a framebuffer,
    /// the frame is skipped — a recoverable per-frame failure — and
    /// nothing else changes. Otherwise `kernel_output`, the simulation
    /// kernel's complete update of the previous state, becomes the new
    /// authoritative state, the derived buffers are rebuilt as its
    /// projection, and the returned commands are this frame's
    /// submission in order.
    pub fn render(&mut self, now_ticks: u64, frame_acquired: bool, kernel_output: Vec<u8>) -> (r:
        Option<Vec<Command>>)
        requires
            old(self).wf(),
            kernel_output@.len() == authoritative_len(old(self).num_particles as int),
        ensures
            final(self).wf(),
            final(self).same_config(old(self)),
            final(self).surface == old(self).surface,
            final(self).timer.last == Some(now_ticks),
            !frame_acquired ==> r is None && final(self).store.bytes@ == old(self).store.bytes@
                && final(self).derived == old(self).derived,
            frame_acquired ==> {
                &&& final(self).store.bytes@ == kernel_output@
                &&& final(self).derived.is_projection_of(
                    kernel_output@,
                    old(self).num_particles as int,
                )
                &&& r matches Some(cmds) && cmds@ == plan_spec(
                    old(self).num_particles,
                    old(self).layout,
                    old(self).strategy,
                    delta_spec(old(self).timer.last, now_ticks),
                    old(self).speed_bits,
                    old(self).boundary_force_bits,
                ) && frame_order_ok(cmds@)
            },
    {
        let delta_ticks = self.timer.next_delta(now_ticks);
        if !frame_acquired {
            return None;
        }
        let cmds = build_plan(
            self.num_particles,
            self.layout,
            self.strategy,
            delta_ticks,
            self.speed_bits,
            self.boundary_force_bits,
        );
        self.store.replace(kernel_output);
        self.derived = DerivedData::derive_from(self.layout, &self.store);
        proof {
            lemma_plan_ordered(
                self.num_particles,
                self.layout,
                self.strategy,
                delta_ticks,
                self.speed_bits,
                self.boundary_force_bits,
            );
        }
        Some(cmds)
    }

    /// Applies a resize request to the surface configuration. A request
    /// with a zero dimension is ignored by contract. Resize never
    /// touches the particle or derived buffers, and never reallocates
    /// anything. Returns whether the application must reconfigure the
    /// output surface.
    pub fn resize(&mut self, width: u32, height: u32) -> (reconfigure: bool)
        ensures
            reconfigure == (width > 0 && height > 0),
            reconfigure ==> final(self).surface == (SurfaceConfig { width, height }),
            !reconfigure ==> final(self).surface == old(self).surface,
            final(self).same_config(old(self)),
            final(self).store == old(self).store,
            final(self).derived == old(self).derived,
            final(self).timer == old(self).timer,
            old(self).wf() ==> final(self).wf(),
    {
        self.surface.apply_resize(width, height)
    }
}

} // verus!
