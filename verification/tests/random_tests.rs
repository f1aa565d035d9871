use game_kit::RandomNumberGenerator;

#[test]
fn test_range_bounds() {
    let mut rng = RandomNumberGenerator::new();
    for _ in 0..1000 {
        let n = rng.range(1..10);
        assert!(n >= 1);
        assert!(n < 10);
    }
}

#[test]
fn test_reproducibility() {
    let mut rng = (
        RandomNumberGenerator::seeded(1),
        RandomNumberGenerator::seeded(1),
    );
    (0..1000).for_each(|_| {
        assert_eq!(
            rng.0.range(u32::MIN..u32::MAX),
            rng.1.range(u32::MIN..u32::MAX),
        );
    });
}

#[test]
fn test_next_types() {
    let mut rng = RandomNumberGenerator::new();
    let _: i32 = rng.next();
    let _ = rng.next::<f32>();
}

#[test]
fn test_range_inclusive_bounds() {
    let mut rng = RandomNumberGenerator::new();
    for _ in 0..1000 {
        let n = rng.range_inclusive(1, 6);
        assert!(n >= 1);
        assert!(n <= 6);
    }
}

#[test]
fn test_range_inclusive_degenerate() {
    let mut rng = RandomNumberGenerator::new();
    assert_eq!(rng.range_inclusive(5, 5), 5);
}

#[test]
fn test_range_inclusive_reproducibility() {
    let mut a = RandomNumberGenerator::seeded(7);
    let mut b = RandomNumberGenerator::seeded(7);
    for _ in 0..1000 {
        assert_eq!(a.range_inclusive(0, u32::MAX), b.range_inclusive(0, u32::MAX));
    }
}

#[test]
fn test_seeds_differ() {
    let mut a = RandomNumberGenerator::seeded(1);
    let mut b = RandomNumberGenerator::seeded(2);
    let mut differed = false;
    for _ in 0..100 {
        if a.range_inclusive(0, u32::MAX) != b.range_inclusive(0, u32::MAX) {
            differed = true;
        }
    }
    assert!(differed);
}

#[test]
fn test_draws_vary() {
    let mut rng = RandomNumberGenerator::seeded(42);
    let first = rng.range_inclusive(1, 6);
    let mut varied = false;
    for _ in 0..100 {
        if rng.range_inclusive(1, 6) != first {
            varied = true;
        }
    }
    assert!(varied);
}

#[test]
fn test_default_in_bounds() {
    let mut rng = RandomNumberGenerator::default();
    let n = rng.range(0..2);
    assert!(n < 2);
}
