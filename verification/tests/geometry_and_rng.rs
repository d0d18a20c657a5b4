use space_shooter::Hitbox;
use space_shooter::Rng;
use space_shooter::check_collision;
use space_shooter::rand_with_seed;
use space_shooter::trig::cos_mil;
use space_shooter::trig::isqrt;
use space_shooter::trig::norm_deg;
use space_shooter::trig::scaled_ratio;
use space_shooter::trig::sin_mil;

fn boxes(ax: i64, ay: i64, aw: u32, ah: u32, bx: i64, by: i64, bw: u32, bh: u32) -> (Hitbox, Hitbox) {
    (
        Hitbox { x: ax, y: ay, w: aw, h: ah },
        Hitbox { x: bx, y: by, w: bw, h: bh },
    )
}

#[test]
fn overlap_is_symmetric_on_samples() {
    let cases = [
        (0i64, 0i64, 10u32, 10u32, 5_000i64, 5_000i64, 10u32, 10u32),
        (0, 0, 10, 10, 20_000, 20_000, 10, 10),
        (-3_000, -3_000, 4, 4, 0, 0, 4, 4),
        (0, 0, 1, 1, 999, 999, 1, 1),
    ];
    for &(ax, ay, aw, ah, bx, by, bw, bh) in cases.iter() {
        let (a, b) = boxes(ax, ay, aw, ah, bx, by, bw, bh);
        assert_eq!(check_collision(&a, &b), check_collision(&b, &a));
    }
}

#[test]
fn touching_edges_do_not_overlap() {
    // b starts exactly where a ends on the x axis: 0 + 10 px = 10_000.
    let (a, b) = boxes(0, 0, 10, 10, 10_000, 0, 10, 10);
    assert!(!check_collision(&a, &b));
    // one milli-pixel of interpenetration makes it an overlap
    let (a, b) = boxes(0, 0, 10, 10, 9_999, 0, 10, 10);
    assert!(check_collision(&a, &b));
}

#[test]
fn collision_check_is_pure() {
    let (a, b) = boxes(0, 0, 16, 16, 8_000, 8_000, 16, 16);
    let first = check_collision(&a, &b);
    let second = check_collision(&a, &b);
    assert_eq!(first, second);
    assert!(first);
}

#[test]
fn rand_with_seed_matches_the_lcg_formula() {
    for seed in [0u32, 1, 54321, 0xffff_ffff] {
        let expected = seed.wrapping_mul(1103515245).wrapping_add(12345) % 0x8000_0000;
        assert_eq!(rand_with_seed(seed), expected);
    }
}

#[test]
fn rng_chains_draws() {
    let mut rng = Rng::new(7);
    let a = rng.next_draw();
    assert_eq!(a, rand_with_seed(7));
    let b = rng.next_draw();
    assert_eq!(b, rand_with_seed(a));
}

#[test]
fn integer_square_root_brackets_its_input() {
    assert_eq!(isqrt(0), 0);
    assert_eq!(isqrt(15), 3);
    assert_eq!(isqrt(16), 4);
    assert_eq!(isqrt(2_000_000), 1414);
    assert_eq!(isqrt(u64::MAX as u128), 0xffff_ffff);
}

#[test]
fn sine_and_cosine_in_thousandths() {
    assert_eq!(sin_mil(0), 0);
    assert_eq!(sin_mil(90), 1000);
    assert_eq!(sin_mil(30), 500);
    assert_eq!(sin_mil(180), 0);
    assert_eq!(sin_mil(270), -1000);
    assert_eq!(sin_mil(-90), -1000);
    assert_eq!(cos_mil(0), 1000);
    assert_eq!(cos_mil(90), 0);
    assert_eq!(cos_mil(180), -1000);
    assert_eq!(cos_mil(270), 0);
}

#[test]
fn degree_normalization() {
    assert_eq!(norm_deg(0), 0);
    assert_eq!(norm_deg(360), 0);
    assert_eq!(norm_deg(-90), 270);
    assert_eq!(norm_deg(725), 5);
    assert_eq!(norm_deg(-725), 355);
}

#[test]
fn scaled_ratio_truncates_toward_zero() {
    assert_eq!(scaled_ratio(2000, 1000, 1000), 2000);
    assert_eq!(scaled_ratio(2000, 1000, 1414), 1414);
    assert_eq!(scaled_ratio(2000, -1000, 1414), -1414);
    assert_eq!(scaled_ratio(5, 1, 3), 1);
    assert_eq!(scaled_ratio(5, -1, 3), -1);
}
