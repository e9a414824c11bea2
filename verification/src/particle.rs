//! The authoritative particle record and its packed byte encoding.
//!
//! Every scalar the GPU reads is a 32-bit float; the host never does
//! arithmetic on those values, it only lays them out. Each scalar is
//! therefore carried here as the bit pattern of that float, and the
//! encoding below is the little-endian packing the GPU buffer holds.

use vstd::prelude::*;

verus! {

/// One authoritative particle record, each scalar held as the bit
/// pattern of the 32-bit float the simulation kernel reads.
#[derive(Clone, Copy, Debug, PartialEq, Eq, Structural)]
pub struct ParticleBits {
    pub position_x: u32,
    pub position_y: u32,
    pub velocity_x: u32,
    pub velocity_y: u32,
    pub color_r: u32,
    pub color_g: u32,
    pub color_b: u32,
    pub color_a: u32,
}

/// The four little-endian bytes of a 32-bit word.
pub open spec fn word_bytes(w: u32) -> Seq<u8> {
    seq![
        (w % 0x100) as u8,
        ((w / 0x100) % 0x100) as u8,
        ((w / 0x10000) % 0x100) as u8,
        ((w / 0x1000000) % 0x100) as u8,
    ]
}

/// The 32 bytes of one packed record: position, velocity, color, in order.
pub open spec fn particle_bytes(p: ParticleBits) -> Seq<u8> {
    word_bytes(p.position_x) + word_bytes(p.position_y) + word_bytes(p.velocity_x)
        + word_bytes(p.velocity_y) + word_bytes(p.color_r) + word_bytes(p.color_g)
        + word_bytes(p.color_b) + word_bytes(p.color_a)
}

pub proof fn lemma_particle_bytes_len(p: ParticleBits)
    ensures
        particle_bytes(p).len() == crate::layout::PARTICLE_STRIDE,
{
}

/// The bytes of a packed sequence of records, in particle order.
pub open spec fn records_bytes(ps: Seq<ParticleBits>) -> Seq<u8>
    decreases ps.len(),
{
    if ps.len() == 0 {
        Seq::empty()
    } else {
        records_bytes(ps.drop_last()) + particle_bytes(ps.last())
    }
}

pub proof fn lemma_records_bytes_len(ps: Seq<ParticleBits>)
    ensures
        records_bytes(ps).len() == crate::layout::PARTICLE_STRIDE * ps.len(),
    decreases ps.len(),
{
    if ps.len() > 0 {
        lemma_records_bytes_len(ps.drop_last());
    }
}

/// Record `i` of a packed sequence occupies bytes `[32 i, 32 i + 32)`.
pub proof fn lemma_records_bytes_record(ps: Seq<ParticleBits>, i: int)
    requires
        0 <= i < ps.len(),
    ensures
        records_bytes(ps).subrange(32 * i, 32 * i + 32) == particle_bytes(ps[i]),
    decreases ps.len(),
{
    lemma_records_bytes_len(ps);
    lemma_records_bytes_len(ps.drop_last());
    if i == ps.len() - 1 {
        assert(records_bytes(ps).subrange(32 * i, 32 * i + 32) =~= particle_bytes(ps.last()));
    } else {
        lemma_records_bytes_record(ps.drop_last(), i);
        assert(records_bytes(ps).subrange(32 * i, 32 * i + 32) =~= records_bytes(
            ps.drop_last(),
        ).subrange(32 * i, 32 * i + 32));
    }
}

/// Appends the four little-endian bytes of `w`.
pub fn push_word(buf: &mut Vec<u8>, w: u32)
    requires
        old(buf)@.len() + 4 <= usize::MAX,
    ensures
        final(buf)@ == old(buf)@ + word_bytes(w),
{
    buf.push((w % 0x100) as u8);
    buf.push(((w / 0x100) % 0x100) as u8);
    buf.push(((w / 0x10000) % 0x100) as u8);
    buf.push(((w / 0x1000000) % 0x100) as u8);
    assert(buf@ =~= old(buf)@ + word_bytes(w));
}

/// Appends the 32-byte packed encoding of one record.
pub fn push_particle(buf: &mut Vec<u8>, p: &ParticleBits)
    requires
        old(buf)@.len() + 32 <= usize::MAX,
    ensures
        final(buf)@ == old(buf)@ + particle_bytes(*p),
{
    push_word(buf, p.position_x);
    push_word(buf, p.position_y);
    push_word(buf, p.velocity_x);
    push_word(buf, p.velocity_y);
    push_word(buf, p.color_r);
    push_word(buf, p.color_g);
    push_word(buf, p.color_b);
    push_word(buf, p.color_a);
    assert(buf@ =~= old(buf)@ + particle_bytes(*p));
}

/// Packs a whole particle list into one tightly packed byte buffer.
pub fn pack_particles(ps: &Vec<ParticleBits>) -> (buf: Vec<u8>)
    requires
        32 * ps@.len() <= usize::MAX,
    ensures
        buf@ == records_bytes(ps@),
        buf@.len() == crate::layout::PARTICLE_STRIDE * ps@.len(),
{
    let mut buf: Vec<u8> = Vec::new();
    let n = ps.len();
    for i in 0..n
        invariant
            n == ps@.len(),
            32 * n <= usize::MAX,
            buf@ == records_bytes(ps@.subrange(0, i as int)),
            buf@.len() == 32 * i,
    {
        proof {
            lemma_records_bytes_len(ps@.subrange(0, i as int));
        }
        push_particle(&mut buf, &ps[i]);
        proof {
            let prefix = ps@.subrange(0, i as int);
            let prefix1 = ps@.subrange(0, i + 1);
            assert(prefix1.drop_last() =~= prefix);
            assert(buf@ == records_bytes(prefix1));
            lemma_records_bytes_len(prefix1);
        }
    }
    proof {
        assert(ps@.subrange(0, ps@.len() as int) =~= ps@);
        lemma_records_bytes_len(ps@);
    }
    buf
}

} // verus!
