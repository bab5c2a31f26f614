use divesync::utils::{calc_ata, calc_depth, n_root};

#[test]
fn test_n_root() {
    assert_eq!(4, n_root(16, 2))
}

#[test]
fn n_root_rounds_down() {
    assert_eq!(n_root(15, 2), 3);
    assert_eq!(n_root(26, 3), 2);
    assert_eq!(n_root(27, 3), 3);
    assert_eq!(n_root(0, 3), 0);
    assert_eq!(n_root(1, 5), 1);
    assert_eq!(n_root(u64::MAX, 2), 4294967295);
    assert_eq!(n_root(u64::MAX, 1), u64::MAX);
}

#[test]
fn test_calc_ata() {
    assert_eq!(42000, calc_ata(3200))
}

#[test]
fn depth_back_from_ata() {
    assert_eq!(calc_depth(calc_ata(2450)), 2450);
    assert_eq!(calc_depth(10000), 0);
    assert_eq!(calc_depth(5000), 0);
}
