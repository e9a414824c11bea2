use particle_life::derivation::{derive_colors, derive_interleaved, derive_positions, DerivedData};
use particle_life::layout::{DerivedLayout, DrawStrategy};
use particle_life::particle::{pack_particles, ParticleBits};
use particle_life::session::{ParticleLife, SessionError};
use particle_life::store::ParticleStore;

fn particle(position: [f32; 2], velocity: [f32; 2], color: [f32; 4]) -> ParticleBits {
    ParticleBits {
        position_x: position[0].to_bits(),
        position_y: position[1].to_bits(),
        velocity_x: velocity[0].to_bits(),
        velocity_y: velocity[1].to_bits(),
        color_r: color[0].to_bits(),
        color_g: color[1].to_bits(),
        color_b: color[2].to_bits(),
        color_a: color[3].to_bits(),
    }
}

fn uniform_seed(n: usize) -> Vec<ParticleBits> {
    (0..n)
        .map(|i| {
            let f = i as f32;
            particle([f, -f], [0.5 * f, 2.0 * f], [0.1 * f, 0.2 * f, 0.3 * f, 1.0])
        })
        .collect()
}

#[test]
fn packed_record_layout_is_little_endian() {
    let p = particle([1.0, 2.0], [3.0, 4.0], [0.1, 0.2, 0.3, 1.0]);
    let bytes = pack_particles(&vec![p]);
    assert_eq!(bytes.len(), 32);
    let mut expected = Vec::new();
    for v in [1.0f32, 2.0, 3.0, 4.0, 0.1, 0.2, 0.3, 1.0] {
        expected.extend_from_slice(&v.to_le_bytes());
    }
    assert_eq!(bytes, expected);
}

#[test]
fn derived_buffer_sizes_equal_count_times_stride() {
    for n in [1u32, 4, 7, 1000] {
        let seed = uniform_seed(n as usize);
        let split = ParticleLife::new(
            n,
            DerivedLayout::Split,
            DrawStrategy::InstancedQuad,
            1.0f32.to_bits(),
            1.0f32.to_bits(),
            640,
            480,
            &seed,
        )
        .unwrap();
        match &split.derived {
            DerivedData::Split { positions, colors } => {
                assert_eq!(positions.len(), 8 * n as usize);
                assert_eq!(colors.len(), 16 * n as usize);
            }
            _ => panic!("split session must hold split derived data"),
        }
        assert_eq!(split.store.bytes.len(), 32 * n as usize);

        let inter = ParticleLife::new(
            n,
            DerivedLayout::Interleaved,
            DrawStrategy::PointList,
            1.0f32.to_bits(),
            1.0f32.to_bits(),
            640,
            480,
            &seed,
        )
        .unwrap();
        match &inter.derived {
            DerivedData::Interleaved { bytes } => {
                assert_eq!(bytes.len(), 24 * n as usize);
            }
            _ => panic!("interleaved session must hold interleaved derived data"),
        }
    }
}

#[test]
fn derived_buffers_start_zeroed() {
    let seed = uniform_seed(3);
    let s = ParticleLife::new(
        3,
        DerivedLayout::Split,
        DrawStrategy::InstancedQuad,
        1.0f32.to_bits(),
        1.0f32.to_bits(),
        64,
        64,
        &seed,
    )
    .unwrap();
    match &s.derived {
        DerivedData::Split { positions, colors } => {
            assert!(positions.iter().all(|&b| b == 0));
            assert!(colors.iter().all(|&b| b == 0));
        }
        _ => panic!("split session must hold split derived data"),
    }
}

#[test]
fn color_range_of_record_lands_at_corresponding_index() {
    // The authoritative record {position:(1,2), velocity:(3,4),
    // color:(0.1,0.2,0.3,1.0)}: bytes [16,32) of it must arrive intact
    // at the record's slot of the derived color buffer.
    let mut seed = uniform_seed(3);
    seed[1] = particle([1.0, 2.0], [3.0, 4.0], [0.1, 0.2, 0.3, 1.0]);
    let store = ParticleStore::seed(3, &seed);
    let colors = derive_colors(&store);
    let got = &colors[16..32];
    let mut expected = Vec::new();
    for v in [0.1f32, 0.2, 0.3, 1.0] {
        expected.extend_from_slice(&v.to_le_bytes());
    }
    assert_eq!(got, &expected[..]);
    assert_eq!(got, &store.bytes[32 + 16..32 + 32]);
}

#[test]
fn position_buffer_is_strided_projection() {
    let seed = uniform_seed(4);
    let store = ParticleStore::seed(4, &seed);
    let positions = derive_positions(&store);
    assert_eq!(positions.len(), 32);
    for i in 0..4 {
        assert_eq!(&positions[8 * i..8 * i + 8], &store.bytes[32 * i..32 * i + 8]);
    }
}

#[test]
fn interleaved_buffer_pairs_position_with_color() {
    let seed = uniform_seed(4);
    let store = ParticleStore::seed(4, &seed);
    let inter = derive_interleaved(&store);
    assert_eq!(inter.len(), 96);
    for i in 0..4 {
        assert_eq!(&inter[24 * i..24 * i + 8], &store.bytes[32 * i..32 * i + 8]);
        assert_eq!(&inter[24 * i + 8..24 * i + 24], &store.bytes[32 * i + 16..32 * i + 32]);
    }
}

#[test]
fn zero_particle_count_is_fatal() {
    let seed: Vec<ParticleBits> = Vec::new();
    let r = ParticleLife::new(
        0,
        DerivedLayout::Split,
        DrawStrategy::InstancedQuad,
        0,
        0,
        64,
        64,
        &seed,
    );
    assert_eq!(r.unwrap_err(), SessionError::ZeroParticleCount);
}

#[test]
fn disagreeing_strategy_and_layout_is_fatal() {
    let seed = uniform_seed(2);
    let r = ParticleLife::new(
        2,
        DerivedLayout::Split,
        DrawStrategy::PointList,
        0,
        0,
        64,
        64,
        &seed,
    );
    assert_eq!(r.unwrap_err(), SessionError::LayoutMismatch);
    let r = ParticleLife::new(
        2,
        DerivedLayout::Interleaved,
        DrawStrategy::InstancedQuad,
        0,
        0,
        64,
        64,
        &seed,
    );
    assert_eq!(r.unwrap_err(), SessionError::LayoutMismatch);
}

#[test]
fn wrong_seed_count_is_fatal() {
    let seed = uniform_seed(2);
    let r = ParticleLife::new(
        3,
        DerivedLayout::Split,
        DrawStrategy::InstancedQuad,
        0,
        0,
        64,
        64,
        &seed,
    );
    assert_eq!(r.unwrap_err(), SessionError::SeedCountMismatch);
}
