use draygon_goop::sim::Samus;
use draygon_goop::sweep::{
    percent_basis_points, phase_hits, sweep_column, sweep_hits, sweep_hits_par,
};

#[test]
fn phase_hits_fixture() {
    let samus = Samus { x: 0xB9, y: 0x1C9 };
    assert_eq!(phase_hits(0x0000, false, &samus), 116);
}

#[test]
fn sweep_totals_are_exact() {
    let seeds = vec![0x0000u16, 0x0061, 0x1234];
    let row = sweep_column(&seeds, false, 0xB9, 0x1C9);
    assert_eq!(row.total_trials, 3 * 128);
    assert_eq!(row.hit_count, 372);
    assert!(row.hit_count <= row.total_trials);
    assert_eq!(
        row.percent_bp,
        (row.hit_count * 20000 + row.total_trials) / (2 * row.total_trials)
    );
    assert_eq!(row.x, 0xB9);
}

#[test]
fn parallel_sweep_agrees_with_sequential() {
    let seeds = vec![0x0000u16, 0x0061, 0x1234, 0xC93E, 0xEF47];
    let samus = Samus { x: 0x100, y: 0x1B5 };
    for left in [true, false] {
        assert_eq!(
            sweep_hits_par(&seeds, left, &samus),
            sweep_hits(&seeds, left, &samus)
        );
    }
}

#[test]
fn empty_seed_list_counts_nothing() {
    let seeds: Vec<u16> = Vec::new();
    let row = sweep_column(&seeds, true, 0x100, 0x1B5);
    assert_eq!(row.total_trials, 0);
    assert_eq!(row.hit_count, 0);
    assert_eq!(row.percent_bp, 0);
}

#[test]
fn percent_rounds_half_up() {
    assert_eq!(percent_basis_points(1, 32), 313);
    assert_eq!(percent_basis_points(1, 3), 3333);
    assert_eq!(percent_basis_points(2, 3), 6667);
    assert_eq!(percent_basis_points(0, 5), 0);
    assert_eq!(percent_basis_points(5, 5), 10000);
    assert_eq!(percent_basis_points(1, 8), 1250);
}

#[test]
fn duplicate_seeds_count_twice() {
    let samus = Samus { x: 0xB9, y: 0x1C9 };
    let once = sweep_hits(&vec![0x0000u16], false, &samus);
    let twice = sweep_hits(&vec![0x0000u16, 0x0000], false, &samus);
    assert_eq!(twice, 2 * once);
}
