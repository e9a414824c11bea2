//! The particle state store: the model of the single authoritative
//! buffer of packed particle records.
//!
//! The byte vector here mirrors, record for record, the GPU buffer that
//! the simulation kernel updates in place. It is written only when a
//! whole frame's kernel output replaces it, so no partial write is ever
//! observable — the consumer sees compute as all-or-nothing per frame.

use crate::layout::authoritative_len;
use crate::particle::{pack_particles, records_bytes, ParticleBits};
use vstd::prelude::*;

verus! {

/// The authoritative particle buffer: `num_particles` packed records.
#[derive(Debug)]
pub struct ParticleStore {
    pub num_particles: u32,
    pub bytes: Vec<u8>,
}

impl ParticleStore {
    /// The buffer holds exactly one 32-byte record per particle.
    pub open spec fn wf(&self) -> bool {
        self.bytes@.len() == authoritative_len(self.num_particles as int)
    }

    /// Bytes of record `i`.
    pub open spec fn record(&self, i: int) -> Seq<u8> {
        self.bytes@.subrange(32 * i, 32 * i + 32)
    }

    /// Allocates and fills the buffer with the given seed records.
    pub fn seed(num_particles: u32, particles: &Vec<ParticleBits>) -> (s: Self)
        requires
            particles@.len() == num_particles as int,
            32 * (num_particles as int) <= usize::MAX,
        ensures
            s.wf(),
            s.num_particles == num_particles,
            s.bytes@ == records_bytes(particles@),
    {
        let bytes = pack_particles(particles);
        ParticleStore { num_particles, bytes }
    }

    /// Installs one frame's complete kernel output as the new state.
    ///
    /// This is the host-visible face of the simulation stage: the kernel
    /// has read and written every record, and the whole buffer changes at
    /// once.
    pub fn replace(&mut self, new_bytes: Vec<u8>)
        requires
            old(self).wf(),
            new_bytes@.len() == authoritative_len(old(self).num_particles as int),
        ensures
            final(self).wf(),
            final(self).num_particles == old(self).num_particles,
            final(self).bytes@ == new_bytes@,
    {
        self.bytes = new_bytes;
    }
}

} // verus!
