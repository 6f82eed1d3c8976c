use ndarray_rand::{draw_n, random_using, random_using_checked};
use rand::distributions::{IndependentSample, Range};
use rand::{Rng, SeedableRng, StdRng, XorShiftRng};

fn seeded(seed: usize) -> StdRng {
    StdRng::from_seed(&[seed][..])
}

#[test]
fn random_using_weak_generator_has_length_of_shape() {
    let a = random_using(&[2, 5], Range::new(0., 10.), &mut rand::weak_rng());
    assert_eq!(a.shape(), &[2, 5]);
    assert_eq!(a.len(), 10);
    assert!(a.as_slice().iter().all(|&x: &f64| 0. <= x && x < 10.));
}

#[test]
fn random_using_with_zero_extent_is_empty() {
    let a = random_using(&[3, 0, 2], Range::new(0u32, 5), &mut rand::weak_rng());
    assert_eq!(a.len(), 0);
    assert_eq!(a.shape(), &[3, 0, 2]);
}

#[test]
fn random_using_same_seed_gives_same_values() {
    let mut r1 = seeded(42);
    let mut r2 = seeded(42);
    let a = random_using(&[2, 5], Range::new(0., 10.), &mut r1);
    let b = random_using(&[2, 5], Range::new(0., 10.), &mut r2);
    assert_eq!(a.len(), 10);
    let xs: Vec<u64> = a.as_slice().iter().map(|x: &f64| x.to_bits()).collect();
    let ys: Vec<u64> = b.as_slice().iter().map(|x: &f64| x.to_bits()).collect();
    assert_eq!(xs, ys);
    assert!(a.as_slice().iter().all(|&x| 0. <= x && x < 10.));
}

#[test]
fn random_using_other_seed_gives_other_values() {
    let a = random_using(&[2, 5], Range::new(0., 10.), &mut seeded(42));
    let b = random_using(&[2, 5], Range::new(0., 10.), &mut seeded(43));
    assert_ne!(a.as_slice(), b.as_slice());
}

#[test]
fn random_using_fills_in_row_major_draw_order() {
    let dist = Range::new(0u64, 1000);
    let a = random_using(&[2, 3], dist, &mut XorShiftRng::from_seed([1, 2, 3, 4]));
    let mut rng = XorShiftRng::from_seed([1, 2, 3, 4]);
    let expected: Vec<u64> = (0..6).map(|_| dist.ind_sample(&mut rng)).collect();
    assert_eq!(a.as_slice(), &expected[..]);
    assert_eq!(a.shape(), &[2, 3]);
}

#[test]
fn random_using_zero_extent_leaves_generator_untouched() {
    let mut used = XorShiftRng::from_seed([5, 6, 7, 8]);
    let mut fresh = XorShiftRng::from_seed([5, 6, 7, 8]);
    let a = random_using(&[0, 4], Range::new(0u8, 9), &mut used);
    assert!(a.is_empty());
    assert_eq!(used.next_u32(), fresh.next_u32());
}

#[test]
fn random_using_advances_generator_by_its_draws() {
    let dist = Range::new(0u32, 100);
    let mut used = XorShiftRng::from_seed([9, 8, 7, 6]);
    let _ = random_using(&[4], dist, &mut used);
    let mut fresh = XorShiftRng::from_seed([9, 8, 7, 6]);
    let _: Vec<u32> = (0..4).map(|_| dist.ind_sample(&mut fresh)).collect();
    assert_eq!(used.next_u32(), fresh.next_u32());
}

#[test]
fn draw_n_draws_in_order() {
    let dist = Range::new(-50i32, 50);
    let got = draw_n(5, &dist, &mut XorShiftRng::from_seed([11, 12, 13, 14]));
    let mut rng = XorShiftRng::from_seed([11, 12, 13, 14]);
    let expected: Vec<i32> = (0..5).map(|_| dist.ind_sample(&mut rng)).collect();
    assert_eq!(got, expected);
}

#[test]
fn draw_n_of_zero_draws_nothing() {
    let mut used = XorShiftRng::from_seed([1, 1, 1, 1]);
    let mut fresh = XorShiftRng::from_seed([1, 1, 1, 1]);
    let got: Vec<u8> = draw_n(0, &Range::new(0u8, 3), &mut used);
    assert!(got.is_empty());
    assert_eq!(used.next_u32(), fresh.next_u32());
}

#[test]
fn checked_refuses_overflowing_shape_without_drawing() {
    let mut used = XorShiftRng::from_seed([2, 4, 6, 8]);
    let mut fresh = XorShiftRng::from_seed([2, 4, 6, 8]);
    let got = random_using_checked(&[usize::MAX, 2], Range::new(0u8, 9), &mut used);
    assert!(got.is_none());
    assert_eq!(used.next_u32(), fresh.next_u32());
}

#[test]
fn checked_builds_array_for_fitting_shape() {
    let dist = Range::new(0u16, 500);
    let got = random_using_checked(&[3, 2], dist, &mut XorShiftRng::from_seed([3, 1, 4, 1]));
    let a = got.unwrap();
    assert_eq!(a.shape(), &[3, 2]);
    let mut rng = XorShiftRng::from_seed([3, 1, 4, 1]);
    let expected: Vec<u16> = (0..6).map(|_| dist.ind_sample(&mut rng)).collect();
    assert_eq!(a.as_slice(), &expected[..]);
}
