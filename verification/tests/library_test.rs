use randonautics::entropy::random_bytes_from_sources;
use randonautics::entropy_v2::HardwareEntropyPool;
use randonautics::geo::{mix_intent, plan_point_cloud, plan_point_cloud_with_intent, CloudStyle};
use randonautics::intent::{hash_intent, hash_intent_with_salt};
use randonautics::open_randonaut::{
    char_is_white_space, compute_grid_size, default_point_count, entropy_source_labels, entropy_sources,
    intent_is_present, kernel_window, session_point_count, suppress_close_duplicates, AnomalyType,
};
use randonautics::vault::{get_master_key, SecurityProfile};
use randonautics::cpu_entropy::{next_query, query_answer, QueryStep};
use randonautics::{cpu_entropy, entropy, entropy_v2};

fn hex(bytes: &[u8]) -> String {
    bytes.iter().map(|b| format!("{:02x}", b)).collect()
}

#[test]
fn mixed_bytes_are_shake256_of_the_seed() {
    let out = random_bytes_from_sources(16, &[0u8; 64], 0, 0);
    assert_eq!(hex(&out), "7ea5f2ea9e9487de4753918bbf5308eb");
    let out = random_bytes_from_sources(12, &[0u8; 64], 0x0102030405060708, 0);
    assert_eq!(hex(&out), "f5b2aab31959590fdf884eb8");
    // a zero CPU value adds nothing to the seed
    let a = random_bytes_from_sources(32, &[7u8; 64], 0, 0);
    let b = random_bytes_from_sources(32, &[7u8; 64], 0, 0);
    assert_eq!(a, b);
    let c = random_bytes_from_sources(32, &[7u8; 64], 0, 5);
    assert_ne!(a, c);
    assert!(random_bytes_from_sources(0, &[0u8; 64], 1, 2).is_empty());
}

#[test]
fn generated_bytes_have_the_requested_length() {
    assert_eq!(entropy::generate_random_bytes(0).unwrap().len(), 0);
    assert_eq!(entropy::generate_random_bytes(1000).unwrap().len(), 1000);
    assert_eq!(entropy_v2::generate_random_bytes(77).unwrap().len(), 77);
    // two draws differ (64 bytes of OS entropy each)
    assert_ne!(entropy::generate_random_bytes(32).unwrap(), entropy::generate_random_bytes(32).unwrap());
}

#[test]
fn pool_hands_out_one_stream() {
    let mut pool = HardwareEntropyPool::from_sources(&[0u8; 64], 0, 0);
    let mut first = [0u8; 4];
    pool.fill_bytes(&mut first);
    assert_eq!(hex(&first), "7ea5f2ea");
    assert_eq!(pool.next_u32(), 0xde87949e);
    assert_eq!(pool.next_u64(), 0xeb0853bf8b915347);
    assert_eq!(pool.bytes_squeezed(), 16);

    // two fills give what one fill of the total gives
    let mut p1 = HardwareEntropyPool::from_sources(&[3u8; 64], 9, 11);
    let mut p2 = HardwareEntropyPool::from_sources(&[3u8; 64], 9, 11);
    let mut whole = [0u8; 300];
    p1.fill_bytes(&mut whole);
    let mut a = [0u8; 137];
    let mut b = [0u8; 163];
    p2.fill_bytes(&mut a);
    p2.fill_bytes(&mut b);
    assert_eq!(&whole[..137], &a[..]);
    assert_eq!(&whole[137..], &b[..]);
    assert_eq!(random_bytes_from_sources(300, &[3u8; 64], 9, 11), whole.to_vec());
}

#[test]
fn fresh_pools_start_at_zero() {
    let mut pool = HardwareEntropyPool::new().unwrap();
    assert_eq!(pool.bytes_squeezed(), 0);
    let _ = pool.next_u64();
    assert_eq!(pool.bytes_squeezed(), 8);
}

#[test]
fn cpu_queries_never_panic() {
    assert_eq!(cpu_entropy::gen_rdseed(0), None);
    assert_eq!(cpu_entropy::gen_rdrand(0), None);
    let _ = cpu_entropy::gen_rdrand(3);
    let _ = cpu_entropy::gen_rdseed(3);
    let _ = cpu_entropy::try_rdrand();
    let _ = cpu_entropy::try_rdseed();
}

#[test]
fn security_profiles_round_trip() {
    assert_eq!(SecurityProfile::from_u8(1), Some(SecurityProfile::Fast));
    assert_eq!(SecurityProfile::from_u8(2), Some(SecurityProfile::Standard));
    assert_eq!(SecurityProfile::from_u8(0), None);
    assert_eq!(SecurityProfile::from_u8(3), None);
    assert_eq!(SecurityProfile::from_u8(255), None);
    for p in [SecurityProfile::Fast, SecurityProfile::Standard] {
        assert_eq!(SecurityProfile::from_u8(p.to_u8()), Some(p));
    }
    assert_eq!(SecurityProfile::Fast.argon2_costs(), (16384, 2, 1));
    assert_eq!(SecurityProfile::Standard.argon2_costs(), (32768, 3, 1));
}

#[test]
fn master_key_needs_an_eight_byte_salt() {
    let err = get_master_key("password", b"short", SecurityProfile::Fast);
    assert!(err.is_err());
    assert_eq!(err.unwrap_err(), "salt is too short");
    assert_eq!(get_master_key("", b"", SecurityProfile::Standard).unwrap_err(), "salt is too short");
    assert!(get_master_key("", b"12345678", SecurityProfile::Standard).is_ok());
    let k1 = get_master_key("password", b"saltsalt", SecurityProfile::Fast).unwrap();
    let k2 = get_master_key("password", b"saltsalt", SecurityProfile::Fast).unwrap();
    assert_eq!(k1, k2);
    let k3 = get_master_key("password", b"saltsalT", SecurityProfile::Fast).unwrap();
    assert_ne!(k1, k3);
    let k4 = get_master_key("password", b"saltsalt", SecurityProfile::Standard).unwrap();
    assert_ne!(k1, k4);
    assert_ne!(&k1[..8], b"password");
    assert_ne!(&k1[..8], b"saltsalt");
}

#[test]
fn intent_key_is_the_fast_master_key() {
    let salt: Vec<u8> = (0u8..16).collect();
    let key = hash_intent_with_salt("hello", &salt);
    assert_eq!(key, get_master_key("hello", &salt, SecurityProfile::Fast).unwrap());
    assert_ne!(hash_intent("hello").unwrap(), hash_intent("hello").unwrap());
}

#[test]
fn grid_size_follows_the_point_count() {
    assert_eq!(compute_grid_size(0), 16);
    assert_eq!(compute_grid_size(64), 16);
    assert_eq!(compute_grid_size(225), 18);
    assert_eq!(compute_grid_size(224), 17);
    assert_eq!(compute_grid_size(1024), 38);
    assert_eq!(compute_grid_size(4444), 79);
    assert_eq!(compute_grid_size(4445), 80);
    assert_eq!(compute_grid_size(100_000), 80);
    assert_eq!(compute_grid_size(usize::MAX), 80);
    let mut last = 0;
    for n in 0..6000 {
        let g = compute_grid_size(n);
        assert!(g >= last);
        last = g;
    }
}

#[test]
fn session_settings() {
    assert_eq!(default_point_count(), 1024);
    assert_eq!(session_point_count(0), 64);
    assert_eq!(session_point_count(63), 64);
    assert_eq!(session_point_count(64), 64);
    assert_eq!(session_point_count(5000), 5000);
    assert_eq!(session_point_count(100_000), 100_000);
    assert_eq!(session_point_count(100_001), 100_000);
    assert_eq!(session_point_count(usize::MAX), 100_000);
}

#[test]
fn intents_are_trimmed() {
    assert!(!intent_is_present(&None));
    assert!(!intent_is_present(&Some(String::new())));
    assert!(!intent_is_present(&Some(" \t\n\r ".to_string())));
    assert!(!intent_is_present(&Some("\u{3000}\u{00a0}\u{2009}".to_string())));
    assert!(intent_is_present(&Some("  find me  ".to_string())));
    assert!(intent_is_present(&Some("намерение".to_string())));
    for c in ['\t', '\n', ' ', '\u{85}', '\u{a0}', '\u{1680}', '\u{2000}', '\u{200a}', '\u{2028}', '\u{3000}'] {
        assert!(char_is_white_space(c), "{:?}", c);
        assert_eq!(char_is_white_space(c), c.is_whitespace());
    }
    for c in ['a', '0', '\u{200b}', '\u{180e}', 'я'] {
        assert!(!char_is_white_space(c));
        assert_eq!(char_is_white_space(c), c.is_whitespace());
    }
}

#[test]
fn entropy_source_names() {
    assert_eq!(entropy_source_labels(false, false, false), vec!["OS (getrandom)", "SHAKE256"]);
    assert_eq!(
        entropy_source_labels(true, true, true),
        vec!["OS (getrandom)", "SHAKE256", "RDRAND", "RDSEED", "Argon2id (intent)"]
    );
    assert_eq!(entropy_source_labels(false, true, false), vec!["OS (getrandom)", "SHAKE256", "RDSEED"]);
    let sources = entropy_sources(true);
    assert_eq!(&sources[..2], &["OS (getrandom)".to_string(), "SHAKE256".to_string()]);
    assert_eq!(sources.last().unwrap(), "Argon2id (intent)");
}

#[test]
fn kernel_window_is_clipped_to_the_grid() {
    let corner = kernel_window(0, 0, 16);
    assert_eq!(corner.len(), 16);
    assert_eq!(corner[0], (0, 0));
    assert_eq!(corner[15], (3, 3));
    let inner = kernel_window(10, 20, 80);
    assert_eq!(inner.len(), 49);
    assert_eq!(inner[0], (7, 17));
    assert_eq!(inner[48], (13, 23));
    assert!(inner.windows(2).all(|w| w[0] < w[1]));
    assert!(kernel_window(-10, 5, 16).is_empty());
    assert_eq!(kernel_window(17, 5, 16).len(), 2 * 7);
    assert!(kernel_window(0, 0, 0).is_empty());
}

#[test]
fn close_anomalies_of_one_kind_merge() {
    let (a, v, p) = (AnomalyType::Attractor, AnomalyType::Void, AnomalyType::Power);
    let kinds = vec![a, a, v, a, v, p];
    let kept = suppress_close_duplicates(&kinds, |i: usize, j: usize| i.abs_diff(j) <= 2);
    assert_eq!(kept, vec![0, 2, 3, 5]);
    let none_close = suppress_close_duplicates(&kinds, |_: usize, _: usize| false);
    assert_eq!(none_close, vec![0, 1, 2, 3, 4, 5]);
    let all_close = suppress_close_duplicates(&kinds, |_: usize, _: usize| true);
    assert_eq!(all_close, vec![0, 2, 5]);
    assert!(suppress_close_duplicates(&Vec::new(), |_: usize, _: usize| true).is_empty());
}

#[test]
fn natural_plan_reads_the_pool() {
    let count = 40;
    let mut pool: Vec<u8> = (0..16 * count).map(|i| (i % 200 + 50) as u8).collect();
    pool[0] = 40; // 2 attractors
    pool[1] = 10; // 1 void
    pool[16] = 105; // point 1 pulled (105 % 100 = 5 < 8)
    pool[17] = 3; // point 1 pushed
    pool[32] = 8; // point 2 not pulled
    pool[33] = 9; // point 2 pushed
    let plan = plan_point_cloud(pool.clone(), count);
    assert_eq!(plan.style, CloudStyle::Natural);
    assert_eq!(plan.pool, pool);
    assert_eq!(plan.attractor_seeds, vec![pool[16..32].to_vec(), pool[32..48].to_vec()]);
    assert_eq!(plan.void_seeds, vec![pool[48..64].to_vec()]);
    assert_eq!(plan.moves.len(), count);
    assert_eq!((plan.moves[0].pull, plan.moves[0].push), (None, None));
    assert_eq!((plan.moves[1].pull, plan.moves[1].push), (Some(0), Some(0)));
    assert_eq!((plan.moves[2].pull, plan.moves[2].push), (None, Some(0)));

    // no anomalies for 32 points or fewer
    let small: Vec<u8> = vec![0u8; 16 * 32];
    let plan = plan_point_cloud(small, 32);
    assert!(plan.attractor_seeds.is_empty() && plan.void_seeds.is_empty());
    assert!(plan.moves.iter().all(|m| m.pull.is_none() && m.push.is_none()));

    pool[0] = 45;
    pool[1] = 25;
    let plan = plan_point_cloud(pool, count);
    assert!(plan.attractor_seeds.is_empty() && plan.void_seeds.is_empty());
}

#[test]
fn intended_plan_mixes_the_key() {
    let count = 3;
    let pool: Vec<u8> = vec![0u8; 16 * count];
    let mut key = [0u8; 32];
    for (i, k) in key.iter_mut().enumerate() {
        *k = (i as u8) * 3;
    }
    key[0] = 7; // 3 attractors
    key[1] = 5; // 2 voids
    key[2] = 14; // point 0 pushed (14 < 15)
    key[3] = 9; // towards void 9 % 2 = 1
    let plan = plan_point_cloud_with_intent(pool, count, &key);
    assert_eq!(plan.style, CloudStyle::Intended);
    let expected_pool: Vec<u8> = (0..16 * count).map(|i| key[i % 32]).collect();
    assert_eq!(plan.pool, expected_pool);
    assert_eq!(plan.attractor_seeds.len(), 3);
    assert_eq!(plan.void_seeds.len(), 2);
    let seed = |start: usize| (0..16).map(|j| key[(start + j) % 32]).collect::<Vec<u8>>();
    assert_eq!(plan.attractor_seeds, vec![seed(0), seed(4), seed(8)]);
    assert_eq!(plan.void_seeds, vec![seed(16), seed(20)]);
    // point 0: byte 0 is 7 < 15, pulled to attractor 5 % 3 = 2
    assert_eq!(plan.moves[0].pull, Some(2));
    assert_eq!(plan.moves[0].push, Some(1));
    // point 1: bytes 16.. are 48, 51, 54, 57: no moves
    assert_eq!((plan.moves[1].pull, plan.moves[1].push), (None, None));
}

#[test]
fn mixing_twice_restores_the_pool() {
    let original: Vec<u8> = (0..100u32).map(|i| (i * 7 + 3) as u8).collect();
    let key: [u8; 32] = core::array::from_fn(|i| (i * 11 + 1) as u8);
    let mut pool = original.clone();
    mix_intent(&mut pool, &key);
    assert_ne!(pool, original);
    assert_eq!(pool[33], original[33] ^ key[1]);
    mix_intent(&mut pool, &key);
    assert_eq!(pool, original);
}

#[test]
fn histogram_counts_every_byte() {
    let data = [1u8, 1, 2, 255, 1, 0];
    let counts = randonautics::stats::byte_histogram(&data);
    assert_eq!(counts.len(), 256);
    assert_eq!(counts[0], 1);
    assert_eq!(counts[1], 3);
    assert_eq!(counts[2], 1);
    assert_eq!(counts[3], 0);
    assert_eq!(counts[255], 1);
    assert_eq!(counts.iter().sum::<usize>(), data.len());
    assert!(randonautics::stats::byte_histogram(&[]).iter().all(|&c| c == 0));
}

#[test]
fn retry_rule_stops_at_the_first_value_or_the_limit() {
    assert!(matches!(next_query(Some(7), 0, 50), QueryStep::Done(Some(7))));
    assert!(matches!(next_query(Some(0), 49, 50), QueryStep::Done(Some(0))));
    assert!(matches!(next_query(None, 0, 50), QueryStep::Again));
    assert!(matches!(next_query(None, 48, 50), QueryStep::Again));
    assert!(matches!(next_query(None, 49, 50), QueryStep::Done(None)));
    assert!(matches!(next_query(None, 0, 1), QueryStep::Done(None)));
    assert!(matches!(next_query(None, u16::MAX - 1, u16::MAX), QueryStep::Done(None)));
}

#[test]
fn generated_bytes_are_prefixes_of_one_stream() {
    let short = random_bytes_from_sources(10, &[9u8; 64], 1, 2);
    let long = random_bytes_from_sources(100, &[9u8; 64], 1, 2);
    assert_eq!(&long[..10], &short[..]);
}

#[test]
fn query_answers_keep_values_and_drop_errors() {
    assert_eq!(query_answer(Ok(42)), Some(42));
    assert_eq!(query_answer(Ok(0)), Some(0));
    assert_eq!(query_answer(Err(rdrand::ErrorCode::HardwareFailure)), None);
    assert_eq!(query_answer(Err(rdrand::ErrorCode::UnsupportedInstruction)), None);
}

#[test]
fn pool_reports_degraded_cpu_sources() {
    let (mut pool, rdrand_missing, rdseed_missing) = HardwareEntropyPool::new_with_report().unwrap();
    assert_eq!(pool.bytes_squeezed(), 0);
    let _ = pool.next_u32();
    assert_eq!(pool.bytes_squeezed(), 4);
    let _ = (rdrand_missing, rdseed_missing);
}
