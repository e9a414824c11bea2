//! The derivation step: projecting the authoritative buffer into the
//! presentation buffer(s).
//!
//! On the GPU this is a buffer-to-buffer copy inside the frame's command
//! stream; here the same projection is defined byte for byte, so that
//! the copy commands of a frame plan and the contents of the derived
//! buffers both answer to one definition. Derived data is always a pure,
//! order-preserving, frame-local projection of the authoritative bytes.

use crate::layout::{
    interleaved_len, split_colors_len, split_positions_len, DerivedLayout,
};
use crate::store::ParticleStore;
use vstd::prelude::*;

verus! {

/// Source byte index, inside the authoritative buffer, of byte `j` of
/// the interleaved presentation buffer: record `j / 24`, its position
/// bytes first, then its color bytes.
pub open spec fn interleaved_src(j: int) -> int {
    32 * (j / 24) + if j % 24 < 8 {
        j % 24
    } else {
        j % 24 + 8
    }
}

/// The interleaved presentation buffer derived from `n` records.
pub open spec fn interleaved_view(auth: Seq<u8>, n: int) -> Seq<u8> {
    Seq::new((24 * n) as nat, |j: int| auth[interleaved_src(j)])
}

/// The split position buffer derived from `n` records: bytes `[0, 8)`
/// of each authoritative record.
pub open spec fn split_positions_view(auth: Seq<u8>, n: int) -> Seq<u8> {
    Seq::new((8 * n) as nat, |j: int| auth[32 * (j / 8) + j % 8])
}

/// The split color buffer derived from `n` records: bytes `[16, 32)`
/// of each authoritative record.
pub open spec fn split_colors_view(auth: Seq<u8>, n: int) -> Seq<u8> {
    Seq::new((16 * n) as nat, |j: int| auth[32 * (j / 16) + 16 + j % 16])
}

/// Record `i` of the split position buffer is exactly bytes `[0, 8)` of
/// authoritative record `i`.
pub proof fn lemma_split_positions_record(auth: Seq<u8>, n: int, i: int)
    requires
        auth.len() == 32 * n,
        0 <= i < n,
    ensures
        split_positions_view(auth, n).subrange(8 * i, 8 * i + 8) == auth.subrange(
            32 * i,
            32 * i + 8,
        ),
{
    let lhs = split_positions_view(auth, n).subrange(8 * i, 8 * i + 8);
    let rhs = auth.subrange(32 * i, 32 * i + 8);
    assert forall|k: int| 0 <= k < 8 implies lhs[k] == rhs[k] by {
        assert((8 * i + k) / 8 == i && (8 * i + k) % 8 == k) by (nonlinear_arith)
            requires
                0 <= k < 8,
                0 <= i,
        ;
    }
    assert(lhs =~= rhs);
}

/// Record `i` of the split color buffer is exactly bytes `[16, 32)` of
/// authoritative record `i`.
pub proof fn lemma_split_colors_record(auth: Seq<u8>, n: int, i: int)
    requires
        auth.len() == 32 * n,
        0 <= i < n,
    ensures
        split_colors_view(auth, n).subrange(16 * i, 16 * i + 16) == auth.subrange(
            32 * i + 16,
            32 * i + 32,
        ),
{
    let lhs = split_colors_view(auth, n).subrange(16 * i, 16 * i + 16);
    let rhs = auth.subrange(32 * i + 16, 32 * i + 32);
    assert forall|k: int| 0 <= k < 16 implies lhs[k] == rhs[k] by {
        assert((16 * i + k) / 16 == i && (16 * i + k) % 16 == k) by (nonlinear_arith)
            requires
                0 <= k < 16,
                0 <= i,
        ;
    }
    assert(lhs =~= rhs);
}

/// Record `i` of the interleaved buffer is the position bytes of
/// authoritative record `i` followed by its color bytes.
pub proof fn lemma_interleaved_record(auth: Seq<u8>, n: int, i: int)
    requires
        auth.len() == 32 * n,
        0 <= i < n,
    ensures
        interleaved_view(auth, n).subrange(24 * i, 24 * i + 24) == auth.subrange(
            32 * i,
            32 * i + 8,
        ) + auth.subrange(32 * i + 16, 32 * i + 32),
{
    let lhs = interleaved_view(auth, n).subrange(24 * i, 24 * i + 24);
    let rhs = auth.subrange(32 * i, 32 * i + 8) + auth.subrange(32 * i + 16, 32 * i + 32);
    assert forall|k: int| 0 <= k < 24 implies lhs[k] == rhs[k] by {
        assert((24 * i + k) / 24 == i && (24 * i + k) % 24 == k) by (nonlinear_arith)
            requires
                0 <= k < 24,
                0 <= i,
        ;
    }
    assert(lhs =~= rhs);
}

/// The derived presentation data of a session, in the layout chosen at
/// construction. Created once, sized for the session's particle count,
/// and overwritten by the derivation step each frame.
#[derive(Debug)]
pub enum DerivedData {
    Interleaved { bytes: Vec<u8> },
    Split { positions: Vec<u8>, colors: Vec<u8> },
}

impl DerivedData {
    /// The data has the shape that the chosen layout asks for.
    pub open spec fn matches_layout(&self, layout: DerivedLayout) -> bool {
        match self {
            DerivedData::Interleaved { .. } => layout is Interleaved,
            DerivedData::Split { .. } => layout is Split,
        }
    }

    /// Every derived buffer holds exactly `n` records of its stride.
    pub open spec fn sized_for(&self, n: int) -> bool {
        match self {
            DerivedData::Interleaved { bytes } => bytes@.len() == interleaved_len(n),
            DerivedData::Split { positions, colors } => positions@.len() == split_positions_len(n)
                && colors@.len() == split_colors_len(n),
        }
    }

    /// Every derived byte is zero, as right after allocation.
    pub open spec fn all_zero(&self) -> bool {
        match self {
            DerivedData::Interleaved { bytes } => forall|i: int|
                0 <= i < bytes@.len() ==> bytes@[i] == 0,
            DerivedData::Split { positions, colors } => (forall|i: int|
                0 <= i < positions@.len() ==> positions@[i] == 0) && (forall|i: int|
                0 <= i < colors@.len() ==> colors@[i] == 0),
        }
    }

    /// The derived buffers are exactly the projection of `auth`.
    pub open spec fn is_projection_of(&self, auth: Seq<u8>, n: int) -> bool {
        match self {
            DerivedData::Interleaved { bytes } => bytes@ == interleaved_view(auth, n),
            DerivedData::Split { positions, colors } => positions@ == split_positions_view(auth, n)
                && colors@ == split_colors_view(auth, n),
        }
    }

    /// A projection of `n` records is sized for `n` records.
    pub proof fn lemma_projection_sized(&self, auth: Seq<u8>, n: int)
        requires
            self.is_projection_of(auth, n),
            n >= 0,
        ensures
            self.sized_for(n),
    {
    }

    /// Allocates the derived buffer(s) for `n` particles, zero-filled.
    pub fn new_zeroed(layout: DerivedLayout, n: u32) -> (d: DerivedData)
        requires
            32 * (n as int) <= usize::MAX,
        ensures
            d.matches_layout(layout),
            d.sized_for(n as int),
            d.all_zero(),
    {
        match layout {
            DerivedLayout::Interleaved => DerivedData::Interleaved {
                bytes: zero_bytes(24 * (n as usize)),
            },
            DerivedLayout::Split => DerivedData::Split {
                positions: zero_bytes(8 * (n as usize)),
                colors: zero_bytes(16 * (n as usize)),
            },
        }
    }

    /// Runs the derivation step: rebuilds the derived data as the
    /// projection of the store's current bytes.
    pub fn derive_from(layout: DerivedLayout, store: &ParticleStore) -> (d: DerivedData)
        requires
            store.wf(),
        ensures
            d.matches_layout(layout),
            d.is_projection_of(store.bytes@, store.num_particles as int),
            d.sized_for(store.num_particles as int),
    {
        let d = match layout {
            DerivedLayout::Interleaved => DerivedData::Interleaved {
                bytes: derive_interleaved(store),
            },
            DerivedLayout::Split => DerivedData::Split {
                positions: derive_positions(store),
                colors: derive_colors(store),
            },
        };
        proof {
            d.lemma_projection_sized(store.bytes@, store.num_particles as int);
        }
        d
    }
}

/// A zero-filled byte vector of the given length.
fn zero_bytes(len: usize) -> (v: Vec<u8>)
    ensures
        v@.len() == len,
        forall|i: int| 0 <= i < len ==> v@[i] == 0,
{
    let mut v: Vec<u8> = Vec::new();
    for j in 0..len
        invariant
            v@.len() == j,
            forall|i: int| 0 <= i < j ==> v@[i] == 0,
    {
        v.push(0);
    }
    v
}

/// Builds the split position buffer from the store.
pub fn derive_positions(store: &ParticleStore) -> (v: Vec<u8>)
    requires
        store.wf(),
    ensures
        v@ == split_positions_view(store.bytes@, store.num_particles as int),
{
    let n = store.num_particles as usize;
    let len = store.bytes.len();
    assert(len == 32 * n);
    let total = 8 * n;
    let mut v: Vec<u8> = Vec::new();
    for j in 0..total
        invariant
            total == 8 * n,
            n == store.num_particles as int,
            store.bytes@.len() == 32 * n,
            32 * n <= usize::MAX,
            v@.len() == j,
            forall|k: int| 0 <= k < j ==> #[trigger] v@[k] == store.bytes@[32 * (k / 8) + k % 8],
    {
        let rec = j / 8;
        let off = j % 8;
        proof {
            assert(j / 8 < n) by (nonlinear_arith)
                requires
                    0 <= j < 8 * n,
            ;
        }
        v.push(store.bytes[rec * 32 + off]);
    }
    proof {
        assert(v@ =~= split_positions_view(store.bytes@, store.num_particles as int));
    }
    v
}

/// Builds the split color buffer from the store.
pub fn derive_colors(store: &ParticleStore) -> (v: Vec<u8>)
    requires
        store.wf(),
    ensures
        v@ == split_colors_view(store.bytes@, store.num_particles as int),
{
    let n = store.num_particles as usize;
    let len = store.bytes.len();
    assert(len == 32 * n);
    let total = 16 * n;
    let mut v: Vec<u8> = Vec::new();
    for j in 0..total
        invariant
            total == 16 * n,
            n == store.num_particles as int,
            store.bytes@.len() == 32 * n,
            32 * n <= usize::MAX,
            v@.len() == j,
            forall|k: int|
                0 <= k < j ==> #[trigger] v@[k] == store.bytes@[32 * (k / 16) + 16 + k % 16],
    {
        let rec = j / 16;
        let off = j % 16;
        proof {
            assert(j / 16 < n) by (nonlinear_arith)
                requires
                    0 <= j < 16 * n,
            ;
        }
        v.push(store.bytes[rec * 32 + 16 + off]);
    }
    proof {
        assert(v@ =~= split_colors_view(store.bytes@, store.num_particles as int));
    }
    v
}

/// Builds the interleaved presentation buffer from the store.
pub fn derive_interleaved(store: &ParticleStore) -> (v: Vec<u8>)
    requires
        store.wf(),
    ensures
        v@ == interleaved_view(store.bytes@, store.num_particles as int),
{
    let n = store.num_particles as usize;
    let len = store.bytes.len();
    assert(len == 32 * n);
    let total = 24 * n;
    let mut v: Vec<u8> = Vec::new();
    for j in 0..total
        invariant
            total == 24 * n,
            n == store.num_particles as int,
            store.bytes@.len() == 32 * n,
            32 * n <= usize::MAX,
            v@.len() == j,
            forall|k: int| 0 <= k < j ==> #[trigger] v@[k] == store.bytes@[interleaved_src(k)],
    {
        let rec = j / 24;
        let off = j % 24;
        proof {
            assert(j / 24 < n) by (nonlinear_arith)
                requires
                    0 <= j < 24 * n,
            ;
        }
        let src = if off < 8 {
            rec * 32 + off
        } else {
            rec * 32 + off + 8
        };
        assert(src == interleaved_src(j as int));
        v.push(store.bytes[src]);
    }
    proof {
        assert(v@ =~= interleaved_view(store.bytes@, store.num_particles as int));
    }
    v
}

} // verus!
