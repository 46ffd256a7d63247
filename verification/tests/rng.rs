use rusty_dos::rng::GlobalRng;
use rusty_dos::rng::Rng;

#[test]
fn test_rng_basic() {
    let mut rng = Rng::new(0x1234);

    // Generate some numbers and ensure they're different
    let n1 = rng.next();
    let n2 = rng.next();
    let n3 = rng.next();

    assert_ne!(n1, n2);
    assert_ne!(n2, n3);
    assert_ne!(n1, n3);
}

#[test]
fn test_rng_deterministic() {
    // Two RNGs with the same seed should produce the same sequence
    let mut rng1 = Rng::new(0x5678);
    let mut rng2 = Rng::new(0x5678);

    for _ in 0..10 {
        assert_eq!(rng1.next(), rng2.next());
    }
}

#[test]
fn test_zero_state_recovery() {
    // Test that the RNG recovers from a zero state
    let mut rng = Rng::new(0);
    let n1 = rng.next();
    assert_ne!(n1, 0);
    assert_eq!(rng.state, 0x1234); // Should reset to default seed
}

#[test]
fn test_global_rng() {
    let mut global = GlobalRng::new();
    global.set_seed(0x9ABC);

    let n1 = global.random();
    let n2 = global.random();

    assert_ne!(n1, n2);
}

#[test]
fn test_distribution() {
    // Basic test for reasonable distribution
    let mut rng = Rng::new(0xDEAD);
    let mut buckets = [0u32; 16];

    for _ in 0..10000 {
        let val = rng.next();
        let bucket = (val >> 12) as usize; // Top 4 bits
        buckets[bucket] += 1;
    }

    // Each bucket should have roughly 625 values (10000/16)
    // Allow for some variance
    for count in &buckets {
        assert!(*count > 400 && *count < 850, "Poor distribution: {}", count);
    }
}

#[test]
fn test_period_length() {
    // Ensure the RNG has a reasonable period (doesn't repeat too quickly)
    let mut rng = Rng::new(0xBEEF);
    let initial = rng.state;

    let mut count = 0;
    loop {
        rng.next();
        count += 1;

        if rng.state == initial {
            break;
        }

        if count > 65000 {
            // Good enough - period is at least near the maximum for 16-bit
            break;
        }
    }

    // XORSHIFT should have a period of 2^16 - 1 for non-zero seeds
    assert!(count > 60000, "Period too short: {}", count);
}

#[test]
fn test_first_step_exact_value() {
    // One exact value of the mixer: 0x1234 -> 0x3830.
    let mut rng = Rng::new(0x1234);
    assert_eq!(rng.next(), 0x3830);
    assert_eq!(rng.state, 0x3830);
}

#[test]
fn test_zero_seed_rejoins_default_sequence() {
    // The first step from a zero seed lands on the reset constant, and from
    // there the sequence coincides with the one seeded with 0x1234.
    let mut from_zero = Rng::new(0);
    assert_eq!(from_zero.next(), 0x1234);
    let mut from_default = Rng::new(0x1234);
    for _ in 0..20 {
        assert_eq!(from_zero.next(), from_default.next());
    }
}

#[test]
fn test_next_never_zero() {
    for seed in [0u16, 1, 0x1234, 0xFFFF, 0x8000] {
        let mut rng = Rng::new(seed);
        for _ in 0..1000 {
            assert_ne!(rng.next(), 0);
        }
    }
}

#[test]
fn test_from_time_words_exact_value() {
    // 0x0102 ^ 0x0304 ^ ((0x0304 & 0xFF) * 100) == 0x0396.
    let rng = Rng::from_time_words(0x0102, 0x0304);
    assert_eq!(rng.state, 0x0396);
}

#[test]
fn test_from_time_words_zero_remapped() {
    // 0x01F1 ^ 0x0005 ^ (5 * 100) == 0, which is remapped at seed time.
    let rng = Rng::from_time_words(0x01F1, 0x0005);
    assert_eq!(rng.state, 0x1234);
}

#[test]
fn test_global_rng_defaults_and_set_seed() {
    let mut global = GlobalRng::new();
    assert_eq!(global.get_state(), 0x1234);
    global.set_seed(0);
    assert_eq!(global.get_state(), 0x1234);
    global.set_seed(7);
    assert_eq!(global.get_state(), 7);
    global.seed_from_time_words(0x01F1, 0x0005);
    assert_eq!(global.get_state(), 0x1234);
    global.seed_from_time_words(0x0102, 0x0304);
    assert_eq!(global.get_state(), 0x0396);
}

#[test]
fn test_global_rng_matches_instance() {
    let mut global = GlobalRng::new();
    global.set_seed(0x4242);
    let mut rng = Rng::new(0x4242);
    for _ in 0..50 {
        assert_eq!(global.random(), rng.next());
    }
}
