use particle_life::layout::{DerivedLayout, DrawStrategy};
use particle_life::particle::ParticleBits;
use particle_life::session::ParticleLife;
use particle_life::surface::SurfaceConfig;
use particle_life::timing::{FrameTimer, DEFAULT_FRAME_TICKS, TICKS_PER_SECOND};

fn seed(n: usize) -> Vec<ParticleBits> {
    (0..n)
        .map(|i| {
            let f = i as f32 + 1.0;
            ParticleBits {
                position_x: f.to_bits(),
                position_y: (-f).to_bits(),
                velocity_x: (0.25 * f).to_bits(),
                velocity_y: (0.5 * f).to_bits(),
                color_r: 0.5f32.to_bits(),
                color_g: 0.75f32.to_bits(),
                color_b: 1.0f32.to_bits(),
                color_a: 1.0f32.to_bits(),
            }
        })
        .collect()
}

fn split_session(n: u32) -> ParticleLife {
    ParticleLife::new(
        n,
        DerivedLayout::Split,
        DrawStrategy::InstancedQuad,
        1.0f32.to_bits(),
        1.0f32.to_bits(),
        800,
        600,
        &seed(n as usize),
    )
    .unwrap()
}

#[test]
fn first_frame_delta_is_one_sixtieth_second() {
    let mut t = FrameTimer::new();
    assert_eq!(t.next_delta(123456), TICKS_PER_SECOND / 60);
    assert_eq!(DEFAULT_FRAME_TICKS, TICKS_PER_SECOND / 60);
}

#[test]
fn second_frame_delta_is_elapsed_ticks() {
    let t1: u64 = 5_000_000;
    let t2: u64 = 5_400_000;
    let mut t = FrameTimer::new();
    t.next_delta(t1);
    assert_eq!(t.next_delta(t2), t2 - t1);
}

#[test]
fn backwards_clock_sample_clamps_to_zero() {
    let mut t = FrameTimer::new();
    t.next_delta(900);
    assert_eq!(t.next_delta(100), 0);
}

#[test]
fn no_drift_when_time_does_not_advance() {
    // A no-op kernel under zero delta: after any number of frames the
    // authoritative state is exactly the seeded state.
    let mut s = split_session(5);
    let seeded = s.store.bytes.clone();
    let now: u64 = 42;
    for _ in 0..10 {
        let unchanged = s.store.bytes.clone();
        let r = s.render(now, true, unchanged);
        assert!(r.is_some());
    }
    assert_eq!(s.store.bytes, seeded);
}

#[test]
fn skipped_frame_changes_nothing_but_the_timer() {
    let mut s = split_session(3);
    let before = s.store.bytes.clone();
    let t1: u64 = 1_000;
    let t2: u64 = 2_500;
    let t3: u64 = 4_000;
    s.render(t1, true, before.clone());

    // Framebuffer acquisition fails: the frame is skipped, state and
    // derived data stay, and the timer still advances exactly once.
    let r = s.render(t2, false, s.store.bytes.clone());
    assert!(r.is_none());
    assert_eq!(s.store.bytes, before);

    let mut fresh = FrameTimer { last: Some(t2) };
    let expected_delta = fresh.next_delta(t3);
    assert_eq!(expected_delta, t3 - t2);
}

#[test]
fn zero_area_resize_is_ignored() {
    let mut s = split_session(2);
    let before = s.surface;
    for (w, h) in [(0u32, 480u32), (640, 0), (0, 0), (0, 7777), (31, 0)] {
        let reconfigure = s.resize(w, h);
        assert!(!reconfigure);
        assert_eq!(s.surface, before);
    }
}

#[test]
fn positive_resize_reconfigures_the_surface() {
    let mut s = split_session(2);
    let bytes_before = s.store.bytes.clone();
    let reconfigure = s.resize(1024, 768);
    assert!(reconfigure);
    assert_eq!(s.surface, SurfaceConfig { width: 1024, height: 768 });
    // Resize never reallocates particle or derived buffers.
    assert_eq!(s.store.bytes, bytes_before);
}

#[test]
fn surface_config_resize_guard_alone() {
    let mut c = SurfaceConfig::new(320, 200);
    assert!(!c.apply_resize(0, 999));
    assert!(!c.apply_resize(999, 0));
    assert_eq!(c, SurfaceConfig { width: 320, height: 200 });
    assert!(c.apply_resize(5, 6));
    assert_eq!(c, SurfaceConfig { width: 5, height: 6 });
}
