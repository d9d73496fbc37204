use sol_prng::Rand;

#[test]
fn single_element_range_returns_it() {
    let (_, n) = Rand::new(0).next_ranged_u32(5, 5);
    assert_eq!(n, 5);
    let (_, m) = Rand::new(0).next_ranged_u64(5, 5);
    assert_eq!(m, 5);
    for seed in 0..200u32 {
        assert_eq!(Rand::new(seed).next_ranged_u32(u32::MAX, u32::MAX).1, u32::MAX);
        assert_eq!(Rand::new(seed).next_ranged_u64(0, 0).1, 0);
    }
}

#[test]
fn ranged_u32_exact_values() {
    let g = Rand::new(42);
    assert_eq!(g.next_ranged_u32(1, 255).1, 138);
    assert_eq!(g.next_ranged_u32(1, 10).1, 8);
    assert_eq!(g.next_ranged_u32(42, u32::MAX).1, 2_272_868_219);
}

#[test]
fn ranged_u64_exact_values() {
    let g = Rand::new(42);
    assert_eq!(g.next_ranged_u64(42, u64::MAX).1, 8_987_561_048_615_458_683);
    assert_eq!(g.next_ranged_u64(1, 10).1, 1 + 8_987_561_048_615_458_641 % 10);
}

#[test]
fn ranged_is_low_plus_raw_modulo_count() {
    for seed in 0..300u32 {
        let g = Rand::new(seed);
        let raw32 = g.next_u32().1;
        let raw64 = g.next_u64().1;
        assert_eq!(g.next_ranged_u32(7, 106).1, 7 + raw32 % 100);
        assert_eq!(g.next_ranged_u64(7, 106).1, 7 + raw64 % 100);
    }
}

#[test]
fn swapped_bounds_give_the_same_draw() {
    let g = Rand::new(42);
    assert_eq!(g.next_ranged_u32(10, 1), g.next_ranged_u32(1, 10));
    assert_eq!(g.next_ranged_u32(10, 1).1, 8);
    for seed in 0..300u32 {
        let g = Rand::new(seed);
        assert_eq!(g.next_ranged_u32(10, 1), g.next_ranged_u32(1, 10));
        assert_eq!(g.next_ranged_u64(10, 1), g.next_ranged_u64(1, 10));
        assert_eq!(g.next_ranged_u64(u64::MAX, 3), g.next_ranged_u64(3, u64::MAX));
    }
}

#[test]
fn ranged_draws_stay_in_range() {
    let bounds32: [(u32, u32); 6] =
        [(1, 10), (10, 1), (0, 1), (42, u32::MAX), (u32::MAX, 0), (1000, 1001)];
    let bounds64: [(u64, u64); 6] =
        [(1, 10), (10, 1), (0, 1), (42, u64::MAX), (u64::MAX, 0), (1000, 1001)];
    let mut g = Rand::new(3);
    for _ in 0..2_000 {
        for (from, to) in bounds32 {
            let (_, n) = g.next_ranged_u32(from, to);
            assert!(from.min(to) <= n && n <= from.max(to));
        }
        for (from, to) in bounds64 {
            let (_, n) = g.next_ranged_u64(from, to);
            assert!(from.min(to) <= n && n <= from.max(to));
        }
        g = g.next_u32().0;
    }
}

#[test]
fn full_range_returns_the_raw_draw() {
    for seed in 0..300u32 {
        let g = Rand::new(seed);
        assert_eq!(g.next_ranged_u32(0, u32::MAX), g.next_u32());
        assert_eq!(g.next_ranged_u32(u32::MAX, 0), g.next_u32());
        assert_eq!(g.next_ranged_u64(0, u64::MAX), g.next_u64());
        assert_eq!(g.next_ranged_u64(u64::MAX, 0), g.next_u64());
    }
    assert_eq!(Rand::new(42).next_ranged_u32(0, u32::MAX).1, 2_272_868_177);
    assert_eq!(Rand::new(42).next_ranged_u64(0, u64::MAX).1, 8_987_561_048_615_458_641);
}

#[test]
fn err_switch_text() {
    assert_eq!(
        Rand::err_switch(),
        "Function next_ranged_* had parameter `from` greater than parameter\n `to`. So to not panic, the parameters have been switched.\n  Do fix this."
    );
    let folded = "Function next_ranged_* had parameter `from` greater than parameter
        `to`. So to not panic, the parameters have been switched.
         Do fix this."
        .replace("        ", " ");
    assert_eq!(Rand::err_switch(), folded);
}
