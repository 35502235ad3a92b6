use zobrist_gen::as_base_16;
use zobrist_gen::as_base_2;
use zobrist_gen::check_no_zero_xor_for;
use zobrist_gen::gen_random;
use zobrist_gen::hamming_distance;
use zobrist_gen::keys_per_row;
use zobrist_gen::random_sanity_check;
use zobrist_gen::strbools;
use zobrist_gen::to_vec_u64;
use zobrist_gen::try_accept_candidate;
use zobrist_gen::validate_params;
use zobrist_gen::ParamError;
use zobrist_gen::RandomSource;
use zobrist_gen::SystemRandom;

/// A fixed linear-congruential sequence, so that checker runs in tests are
/// reproducible.
struct Lcg {
    state: u64,
}

impl RandomSource for Lcg {
    fn next_bool(&mut self) -> bool {
        self.next_usize() & 1 == 1
    }

    fn next_usize(&mut self) -> usize {
        self.state = self
            .state
            .wrapping_mul(6364136223846793005)
            .wrapping_add(1442695040888963407);
        (self.state >> 33) as usize
    }
}

#[test]
fn gen_random_test() {
    let mut rng = SystemRandom::new();
    assert_eq!(10, gen_random(&mut rng, 10).len());
    assert!(gen_random(&mut rng, 10) != gen_random(&mut rng, 10));
}

#[test]
fn strbools_test() {
    assert_eq!(vec![true, false, false, true], strbools(&"1001"));
    assert_eq!(vec![true, true, true, true, true], strbools(&"11111"));
    assert_eq!(vec![false, false, false, false, false], strbools(&"00000"));
    assert!(strbools(&"").len() == 0);
}

#[test]
fn as_base_2_test() {
    assert_eq!("10101111000", as_base_2(&strbools(&"10101111000")));
    assert_eq!("01010101010101", as_base_2(&strbools(&"01010101010101")));
}

#[test]
fn as_base_16_test() {
    // trailing zeros
    assert_eq!("1", as_base_16(&strbools(&"1")));
    assert_eq!("3", as_base_16(&strbools(&"11")));
    assert_eq!("7", as_base_16(&strbools(&"111")));
    assert_eq!("f", as_base_16(&strbools(&"1111")));
    assert_eq!("1f", as_base_16(&strbools(&"11111")));
    assert_eq!("3f", as_base_16(&strbools(&"111111")));
    // bigger numbers
    assert_eq!("ff", as_base_16(&strbools(&"11111111")));
    assert_eq!("ff00", as_base_16(&strbools(&"1111111100000000")));
    assert_eq!("aa", as_base_16(&strbools(&"10101010")));
    assert_eq!(
        "15576baada",
        as_base_16(&strbools(&"1010101010111011010111010101011011010"))
    );
    assert_eq!(
        "deadbeef",
        as_base_16(&strbools(&"11011110101011011011111011101111"))
    );
}

#[test]
fn hamming() {
    assert_eq!(0, hamming_distance(&strbools(&"1001"), &strbools(&"1001")));
    assert_eq!(
        0,
        hamming_distance(&strbools(&"10000001"), &strbools(&"10000001"))
    );
    assert_eq!(
        8,
        hamming_distance(&strbools(&"01111110"), &strbools(&"10000001"))
    );
    assert_eq!(
        8,
        hamming_distance(&strbools(&"00000000"), &strbools(&"11111111"))
    );
    assert_eq!(
        8,
        hamming_distance(&strbools(&"10101010"), &strbools(&"01010101"))
    );
    assert_eq!(
        4,
        hamming_distance(&strbools(&"00001111"), &strbools(&"00000000"))
    );
}

#[test]
fn hamming_is_symmetric() {
    let a = strbools(&"10110011");
    let b = strbools(&"01101010");
    assert_eq!(hamming_distance(&a, &b), hamming_distance(&b, &a));
}

#[test]
fn hamming_bounds() {
    let a = strbools(&"110010");
    let b = strbools(&"001101");
    let d = hamming_distance(&a, &b);
    assert!(d <= 6);
    assert!(d > 0);
    assert_eq!(0, hamming_distance(&a, &a));
}

#[test]
fn hamming_of_empty_vectors_is_zero() {
    assert_eq!(0, hamming_distance(&strbools(&""), &strbools(&"")));
}

#[test]
fn base_2_round_trip() {
    let v = strbools(&"1001110001011");
    assert_eq!(v, strbools(&as_base_2(&v)));
    let empty = strbools(&"");
    assert_eq!("", as_base_2(&empty));
    assert_eq!(empty, strbools(&as_base_2(&empty)));
}

#[test]
fn to_vec_u64_packs_values() {
    let numbers = vec![
        strbools(&"11011110101011011011111011101111"),
        strbools(&"1001"),
        strbools(&""),
    ];
    assert_eq!(vec![0xdeadbeef_u64, 9, 0], to_vec_u64(&numbers));
}

#[test]
fn generator_terminates_on_feasible_parameters() {
    let mut rng = SystemRandom::new();
    let mut keys: Vec<Vec<bool>> = Vec::new();
    while keys.len() < 5 {
        try_accept_candidate(&mut rng, &mut keys, 8, 2, 6);
    }
    assert_eq!(5, keys.len());
    for key in &keys {
        assert_eq!(8, key.len());
    }
    for i in 0..keys.len() {
        for j in 0..keys.len() {
            if i != j {
                let d = hamming_distance(&keys[i], &keys[j]);
                assert!(2 <= d && d <= 6);
            }
        }
    }
}

#[test]
fn first_candidate_is_always_accepted() {
    let mut rng = SystemRandom::new();
    let mut keys: Vec<Vec<bool>> = Vec::new();
    assert!(try_accept_candidate(&mut rng, &mut keys, 16, 3, 9));
    assert_eq!(1, keys.len());
}

#[test]
fn full_band_accepts_every_candidate() {
    let mut rng = SystemRandom::new();
    let mut keys: Vec<Vec<bool>> = Vec::new();
    for _ in 0..20 {
        assert!(try_accept_candidate(&mut rng, &mut keys, 8, 0, 8));
    }
    assert_eq!(20, keys.len());
}

#[test]
fn checker_detects_zero_xor_prefix() {
    // keys at indices 1, 2 and 3 XOR to zero
    let numbers: Vec<u64> = vec![9, 1, 2, 3, 12];
    let finding = check_no_zero_xor_for(&numbers, &vec![1, 2, 3]);
    assert_eq!(Some(3), finding);
    // the first zeroing prefix is reported, not the full subset
    let finding = check_no_zero_xor_for(&numbers, &vec![1, 2, 3, 4]);
    assert_eq!(Some(3), finding);
    let finding = check_no_zero_xor_for(&numbers, &vec![0, 1, 2]);
    assert_eq!(None, finding);
}

#[test]
fn checker_reports_earliest_prefix() {
    let numbers: Vec<u64> = vec![5, 5, 7];
    assert_eq!(Some(2), check_no_zero_xor_for(&numbers, &vec![0, 1, 2]));
}

#[test]
fn checker_passes_a_sound_key_set() {
    // eight 8-bit keys, pairwise Hamming distance within [3, 5], with no
    // nonempty subset XORing to zero
    let keys: Vec<Vec<bool>> = vec![
        strbools(&"00001000"),
        strbools(&"00001111"),
        strbools(&"00010001"),
        strbools(&"00100010"),
        strbools(&"00111101"),
        strbools(&"01000100"),
        strbools(&"01011110"),
        strbools(&"10010100"),
    ];
    for i in 0..keys.len() {
        for j in 0..keys.len() {
            if i != j {
                let d = hamming_distance(&keys[i], &keys[j]);
                assert!(3 <= d && d <= 5);
            }
        }
    }
    let numbers = to_vec_u64(&keys);
    let mut rng = Lcg { state: 20177 };
    assert!(random_sanity_check(&mut rng, &numbers, 100000).is_none());
}

#[test]
fn checker_finding_through_random_trials() {
    // two equal keys: any trial whose subset starts with indices 0 and 1
    // XORs to zero, and the sampler finds one quickly
    let numbers: Vec<u64> = vec![6, 6, 250, 107];
    let mut rng = Lcg { state: 1 };
    let report = random_sanity_check(&mut rng, &numbers, 100000).expect("collision expected");
    assert_eq!(2, report.prefix_len);
    assert_eq!(vec![0, 1], report.indices[..2].to_vec());
}

#[test]
fn validate_params_accepts_the_defaults() {
    assert_eq!(Ok(()), validate_params(64, 20, 45));
}

#[test]
fn validate_params_rejects_min_at_width() {
    assert_eq!(
        Err(ParamError::MinDistanceNotBelowWidth),
        validate_params(8, 8, 12)
    );
    assert_eq!(
        Err(ParamError::MinDistanceNotBelowWidth),
        validate_params(8, 9, 12)
    );
}

#[test]
fn validate_params_rejects_min_at_max() {
    assert_eq!(
        Err(ParamError::MinDistanceNotBelowMax),
        validate_params(8, 5, 5)
    );
    assert_eq!(
        Err(ParamError::MinDistanceNotBelowMax),
        validate_params(8, 5, 3)
    );
}

#[test]
fn keys_per_row_by_width() {
    assert_eq!(1, keys_per_row(256));
    assert_eq!(2, keys_per_row(128));
    assert_eq!(4, keys_per_row(64));
    assert_eq!(8, keys_per_row(32));
    assert_eq!(12, keys_per_row(16));
    assert_eq!(16, keys_per_row(15));
    assert_eq!(16, keys_per_row(1));
}
