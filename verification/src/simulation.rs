//! The simulation stage: dispatch sizing, the packed uniform parameters
//! the kernel reads, and what a frame of compute does to the state.
//!
//! The force law itself is an opaque, externally supplied kernel bound
//! through a fixed interface; this module owns everything around it that
//! is plain arithmetic: how many workgroups to dispatch, the exact bytes
//! of the uniform parameter block, and the all-or-nothing effect of one
//! dispatch on the authoritative state.

use crate::particle::word_bytes;
use vstd::prelude::*;

verus! {

/// Compute invocations per workgroup, fixed by the kernel interface.
pub const WORKGROUP_SIZE: u32 = 256;

/// Bind group slot of the uniform simulation parameters.
pub const BINDING_PARAMS: u32 = 0;

/// Bind group slot of the read-write authoritative particle buffer.
pub const BINDING_PARTICLES: u32 = 1;

/// Byte size of the packed uniform parameter block, padded to the
/// 16-byte uniform-buffer alignment.
pub const SIM_PARAMS_SIZE: usize = 16;

/// Workgroups needed to cover `n` particles: the ceiling of `n / 256`.
pub open spec fn workgroup_count_spec(n: u32) -> u32 {
    (((n as int) + 255) / 256) as u32
}

/// Computes the dispatch grid size for `n` particles: enough workgroups
/// that every particle is covered, and none to spare.
pub fn workgroup_count(n: u32) -> (groups: u32)
    ensures
        groups == workgroup_count_spec(n),
        256 * (groups as int) >= n,
        n > 0 ==> 256 * ((groups as int) - 1) < n,
{
    let g = ((n as u64) + 255) / 256;
    proof {
        assert((g as int) <= 0x1000000) by (nonlinear_arith)
            requires
                g == ((n as int) + 255) / 256,
                n <= 0xffffffff,
        ;
        assert(256 * (g as int) >= n && ((n as int) > 0 ==> 256 * ((g as int) - 1) < n))
            by (nonlinear_arith)
            requires
                g == ((n as int) + 255) / 256,
                n >= 0,
        ;
    }
    g as u32
}

/// The packed uniform parameter block the kernel reads each frame:
/// delta time, speed, boundary force (as 32-bit float bit patterns),
/// and trailing padding.
pub open spec fn sim_params_bytes_spec(
    delta_time_bits: u32,
    speed_bits: u32,
    boundary_force_bits: u32,
) -> Seq<u8> {
    word_bytes(delta_time_bits) + word_bytes(speed_bits) + word_bytes(boundary_force_bits)
        + word_bytes(0)
}

/// Packs the per-frame simulation parameters for the uniform buffer.
pub fn sim_params_bytes(delta_time_bits: u32, speed_bits: u32, boundary_force_bits: u32) -> (v: Vec<
    u8,
>)
    ensures
        v@ == sim_params_bytes_spec(delta_time_bits, speed_bits, boundary_force_bits),
        v@.len() == SIM_PARAMS_SIZE,
{
    let mut v: Vec<u8> = Vec::new();
    crate::particle::push_word(&mut v, delta_time_bits);
    crate::particle::push_word(&mut v, speed_bits);
    crate::particle::push_word(&mut v, boundary_force_bits);
    crate::particle::push_word(&mut v, 0);
    proof {
        assert(v@ =~= sim_params_bytes_spec(delta_time_bits, speed_bits, boundary_force_bits));
    }
    v
}

/// The authoritative state after `frames` frames, each applying the
/// kernel to the whole previous state.
pub open spec fn run_frames(
    state: Seq<u8>,
    kernel: spec_fn(Seq<u8>) -> Seq<u8>,
    frames: nat,
) -> Seq<u8>
    decreases frames,
{
    if frames == 0 {
        state
    } else {
        kernel(run_frames(state, kernel, (frames - 1) as nat))
    }
}

/// No drift when time does not advance: under a kernel that returns
/// every state unchanged — as a deterministic kernel must when its
/// delta time is zero — the state after any number of frames is exactly
/// the seeded state.
pub proof fn lemma_no_drift(state: Seq<u8>, kernel: spec_fn(Seq<u8>) -> Seq<u8>, frames: nat)
    requires
        forall|s: Seq<u8>| #[trigger] kernel(s) == s,
    ensures
        run_frames(state, kernel, frames) == state,
    decreases frames,
{
    if frames > 0 {
        lemma_no_drift(state, kernel, (frames - 1) as nat);
    }
}

} // verus!
