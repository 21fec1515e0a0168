use draygon_goop::rng::seed_update;
use draygon_goop::sim::{Draygon, Samus};
use draygon_goop::sweep::run_trial;

#[test]
fn seed_update_matches_generator() {
    for seed in 0..=0xFFFFu32 {
        let seed = seed as u16;
        let mut rng = smrng::Rng::RESET.with_seed(seed);
        assert_eq!(seed_update(seed), rng.roll(), "seed {seed:#06x}");
    }
}

#[test]
fn seed_update_fixed_values() {
    assert_eq!(seed_update(0x0000), 0x0111);
    assert_eq!(seed_update(0x0061), 0x02F6);
    assert_eq!(seed_update(0xFFFF), 0x010D);
    assert_eq!(seed_update(0x1234), 0x5C15);
}

#[test]
fn regression_fixture() {
    // The pinned reference outcome: seed 0, phase 0x88, right side,
    // target at (0x00B9, 0x01C9).
    let samus = Samus { x: 0x00B9, y: 0x01C9 };
    assert!(run_trial(0x0000, 0x88, false, &samus));
}

#[test]
fn outcome_fixtures() {
    let mid = Samus { x: 0x100, y: 0x1B5 };
    assert!(run_trial(0x0061, 0x00, true, &mid));
    assert!(run_trial(0x0061, 0x00, false, &mid));
    assert!(run_trial(0x1234, 0x7F, true, &Samus { x: 0x45, y: 0x1B5 }));
    assert!(run_trial(0xC93E, 0x10, false, &Samus { x: 0x19B, y: 0x1B5 }));
    assert!(run_trial(0xEF47, 0x1F, true, &Samus { x: 0xB9, y: 0x1C9 }));
}

#[test]
fn repeated_runs_agree() {
    let samus = Samus { x: 0x123, y: 0x1B5 };
    for phase in [0u8, 0x40, 0x7F] {
        let first = run_trial(0xC93E, phase, true, &samus);
        let second = run_trial(0xC93E, phase, true, &samus);
        assert_eq!(first, second);
    }
}

#[test]
fn side_mirror_is_not_symmetric() {
    // Mirroring the side and the target column around the field centre does
    // not mirror the outcome: the turret draw cadence differs by side.
    let phase = 0x55;
    let left = run_trial(0x1234, phase, true, &Samus { x: 0x6A, y: 0x1B5 });
    let right = run_trial(0x1234, phase, false, &Samus { x: 0x200 - 0x6A, y: 0x1B5 });
    assert!(left);
    assert!(!right);
    assert_ne!(left, right);
}

fn boss_at(x: i16, y: i16, left: bool) -> Draygon {
    Draygon {
        x,
        y,
        y_angle: 0,
        goop_counter: 0x10,
        goop_timer: 0,
        global_timer: 0,
        left,
        samus_in_range: true,
    }
}

#[test]
fn goop_never_hits_target_beyond_field() {
    let boss = boss_at(0x100, 0x180, false);
    for seed in [0u16, 1, 0x1234, 0xBEEF] {
        let mut rng = smrng::Rng::RESET.with_seed(seed);
        assert!(!boss.fire_goop(&mut rng, &Samus { x: 600, y: 0x1B5 }));
        let mut rng = smrng::Rng::RESET.with_seed(seed);
        assert!(!boss.fire_goop(&mut rng, &Samus { x: 0x100, y: 600 }));
        let mut rng = smrng::Rng::RESET.with_seed(seed);
        assert!(!boss.fire_goop(&mut rng, &Samus { x: -100, y: 0x1B5 }));
    }
}

#[test]
fn goop_can_hit_target_in_field() {
    let boss = boss_at(0x100, 0x180, false);
    let mut rng = smrng::Rng::RESET.with_seed(0x0000);
    assert!(boss.fire_goop(&mut rng, &Samus { x: 0x140, y: 0x1B5 }));
}

#[test]
fn fire_goop_advances_generator_once() {
    let boss = boss_at(0x100, 0x180, true);
    let mut rng = smrng::Rng::RESET.with_seed(0x4242);
    boss.fire_goop(&mut rng, &Samus { x: 600, y: 600 });
    assert_eq!(rng.read(), seed_update(0x4242));
}

#[test]
fn simulate_goop_runs_from_any_configured_generator() {
    let samus = Samus { x: 0x45, y: 0x1B5 };
    let rng = smrng::Rng::RESET.with_seed(0x0100);
    assert!(draygon_goop::sim::simulate_goop(rng, 0x00, false, &samus));
}
