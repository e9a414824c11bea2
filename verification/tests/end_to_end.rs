use particle_life::derivation::DerivedData;
use particle_life::layout::{DerivedLayout, DrawStrategy};
use particle_life::particle::ParticleBits;
use particle_life::plan::Command;
use particle_life::session::ParticleLife;
use rand::rngs::StdRng;
use rand::{Rng, SeedableRng};

/// Draws one particle the way a session is seeded: position in a
/// bounded square, velocity in a small range, bright colors with full
/// opacity.
fn random_particle(rng: &mut StdRng) -> ParticleBits {
    ParticleBits {
        position_x: rng.gen_range(-0.8f32..0.8).to_bits(),
        position_y: rng.gen_range(-0.8f32..0.8).to_bits(),
        velocity_x: rng.gen_range(-0.2f32..0.2).to_bits(),
        velocity_y: rng.gen_range(-0.2f32..0.2).to_bits(),
        color_r: rng.gen_range(0.5f32..1.0).to_bits(),
        color_g: rng.gen_range(0.5f32..1.0).to_bits(),
        color_b: rng.gen_range(0.5f32..1.0).to_bits(),
        color_a: 1.0f32.to_bits(),
    }
}

fn read_f32(bytes: &[u8], offset: usize) -> f32 {
    f32::from_le_bytes([bytes[offset], bytes[offset + 1], bytes[offset + 2], bytes[offset + 3]])
}

fn write_f32(bytes: &mut [u8], offset: usize, v: f32) {
    bytes[offset..offset + 4].copy_from_slice(&v.to_le_bytes());
}

/// The stand-in simulation kernel: adds velocity times the delta time
/// to each particle's position and leaves everything else alone.
fn integrate(auth: &[u8], n: usize, dt: f32, speed: f32) -> Vec<u8> {
    let mut out = auth.to_vec();
    for i in 0..n {
        let base = 32 * i;
        let px = read_f32(auth, base);
        let py = read_f32(auth, base + 4);
        let vx = read_f32(auth, base + 8);
        let vy = read_f32(auth, base + 12);
        write_f32(&mut out, base, px + vx * dt * speed);
        write_f32(&mut out, base + 4, py + vy * dt * speed);
    }
    out
}

#[test]
fn one_frame_moves_each_particle_by_velocity_over_sixty() {
    let mut rng = StdRng::seed_from_u64(7);
    let seed: Vec<ParticleBits> = (0..4).map(|_| random_particle(&mut rng)).collect();
    let mut s = ParticleLife::new(
        4,
        DerivedLayout::Split,
        DrawStrategy::InstancedQuad,
        1.0f32.to_bits(),
        1.0f32.to_bits(),
        640,
        480,
        &seed,
    )
    .unwrap();

    let dt = 1.0f32 / 60.0;
    let before = s.store.bytes.clone();
    let kernel_output = integrate(&before, 4, dt, 1.0);
    let cmds = s.render(1_000_000, true, kernel_output).unwrap();

    // The frame's first commands carry the fresh parameters and the
    // dispatch that covers all four particles in one workgroup.
    assert!(matches!(cmds[0], Command::WriteParams { .. }));
    assert_eq!(cmds[1], Command::DispatchCompute { workgroups: 1 });

    // Each position advanced by exactly velocity / 60.
    for i in 0..4 {
        let base = 32 * i;
        let expected_x = read_f32(&before, base) + read_f32(&before, base + 8) * dt;
        let expected_y = read_f32(&before, base + 4) + read_f32(&before, base + 12) * dt;
        assert_eq!(read_f32(&s.store.bytes, base), expected_x);
        assert_eq!(read_f32(&s.store.bytes, base + 4), expected_y);
    }

    // The derived buffers reflect the updated positions, not the
    // pre-update ones, and the untouched colors.
    match &s.derived {
        DerivedData::Split { positions, colors } => {
            for i in 0..4 {
                assert_eq!(&positions[8 * i..8 * i + 8], &s.store.bytes[32 * i..32 * i + 8]);
                assert_ne!(&positions[8 * i..8 * i + 8], &before[32 * i..32 * i + 8]);
                assert_eq!(&colors[16 * i..16 * i + 16], &before[32 * i + 16..32 * i + 32]);
            }
        }
        _ => panic!("split session must hold split derived data"),
    }
}

#[test]
fn deterministic_seed_gives_deterministic_session() {
    let mut rng_a = StdRng::seed_from_u64(11);
    let seed_a: Vec<ParticleBits> = (0..4).map(|_| random_particle(&mut rng_a)).collect();
    let mut rng_b = StdRng::seed_from_u64(11);
    let seed_b: Vec<ParticleBits> = (0..4).map(|_| random_particle(&mut rng_b)).collect();
    let a = ParticleLife::new(
        4,
        DerivedLayout::Interleaved,
        DrawStrategy::PointList,
        1.0f32.to_bits(),
        1.0f32.to_bits(),
        64,
        64,
        &seed_a,
    )
    .unwrap();
    let b = ParticleLife::new(
        4,
        DerivedLayout::Interleaved,
        DrawStrategy::PointList,
        1.0f32.to_bits(),
        1.0f32.to_bits(),
        64,
        64,
        &seed_b,
    )
    .unwrap();
    assert_eq!(a.store.bytes, b.store.bytes);
}
