use zerohung::address::{score_address, Score};
use zerohung::config::{parse_arguments, parse_count, ArgError};
use zerohung::create3::Create3Generator;
use zerohung::eoa::EoaGenerator;
use zerohung::generator::{GenerationResult, Generator, InvalidState};
use zerohung::tracker::{decide, is_dominated, Outcome, ScoreTracker};
use zerohung::worker::{
    final_report, log_entry, stop_after_candidate, stop_before_generating, StopReason,
};

fn args(list: &[&str]) -> Vec<String> {
    list.iter().map(|s| s.to_string()).collect()
}

fn sample_create3() -> Create3Generator {
    Create3Generator::new([0x11; 20], [0x22; 20], vec![0x67, 0x36, 0x3d])
}

fn score(zero_count: usize, repeat_run: usize) -> Score {
    Score { zero_count, repeat_run }
}

#[test]
fn create3_derivation_is_deterministic() {
    let g = sample_create3();
    let h = sample_create3();
    let salt = [7u8; 32];
    assert_eq!(g.address_for_salt(&salt), h.address_for_salt(&salt));
    assert_eq!(g.address_for_salt(&salt), g.address_for_salt(&salt));
    assert_ne!(g.address_for_salt(&salt), g.address_for_salt(&[8u8; 32]));
    let other = Create3Generator::new([0x12; 20], [0x22; 20], vec![0x67, 0x36, 0x3d]);
    assert_ne!(g.address_for_salt(&salt), other.address_for_salt(&salt));
}

#[test]
fn create3_address_known_value() {
    let expected: [u8; 20] = [
        0xec, 0xbb, 0xf3, 0xfb, 0x96, 0x61, 0x89, 0xa1, 0xdd, 0xa8, 0x33, 0xdf, 0x31, 0x04, 0x26,
        0xfc, 0xf2, 0xa6, 0xf9, 0x19,
    ];
    assert_eq!(sample_create3().address_for_salt(&[7u8; 32]), expected);
}

#[test]
fn create3_generated_address_matches_its_salt() {
    let g = sample_create3();
    let (address, result) = g.generate_address();
    match result {
        GenerationResult::Create3 { salt } => assert_eq!(address, g.address_for_salt(&salt)),
        _ => panic!("wrong strategy"),
    }
}

#[test]
fn eoa_address_of_key_one() {
    let mut key = [0u8; 32];
    key[31] = 1;
    let expected: [u8; 20] = [
        0x7e, 0x5f, 0x45, 0x52, 0x09, 0x1a, 0x69, 0x12, 0x5d, 0x5d, 0xfc, 0xb7, 0xb8, 0xc2, 0x65,
        0x90, 0x29, 0x39, 0x5b, 0xdf,
    ];
    assert_eq!(EoaGenerator::address_of_secret_key(&key), Some(expected));
}

#[test]
fn eoa_rejects_invalid_keys() {
    assert_eq!(EoaGenerator::address_of_secret_key(&[0u8; 32]), None);
    assert_eq!(EoaGenerator::address_of_secret_key(&[0xff; 32]), None);
}

#[test]
fn eoa_generated_address_matches_its_key() {
    let g = EoaGenerator {};
    let (address, result) = g.generate_address();
    match result {
        GenerationResult::Eoa { secret_key } => {
            assert_eq!(EoaGenerator::address_of_secret_key(&secret_key), Some(address))
        }
        _ => panic!("wrong strategy"),
    }
}

#[test]
fn reveal_secret_gives_hex() {
    let g = Generator::Create3(sample_create3());
    let mut salt = [0u8; 32];
    salt[0] = 0xab;
    salt[31] = 0x01;
    let text = g.reveal_secret(GenerationResult::Create3 { salt }).unwrap();
    assert_eq!(text, format!("ab{}01", "0".repeat(60)));
    let e = Generator::Eoa(EoaGenerator {});
    let key = [0x5au8; 32];
    assert_eq!(e.reveal_secret(GenerationResult::Eoa { secret_key: key }).unwrap(), "5a".repeat(32));
}

#[test]
fn strategy_reveals_its_own_secret() {
    assert_eq!(
        EoaGenerator {}.generate_private_or_salt(GenerationResult::Eoa { secret_key: [0x1f; 32] }),
        "1f".repeat(32)
    );
    assert_eq!(
        sample_create3().generate_private_or_salt(GenerationResult::Create3 { salt: [0xa0; 32] }),
        "a0".repeat(32)
    );
}

#[test]
fn reveal_secret_rejects_other_strategy() {
    let e = Generator::Eoa(EoaGenerator {});
    assert_eq!(
        e.reveal_secret(GenerationResult::Create3 { salt: [1; 32] }),
        Err(InvalidState::WrongStrategy)
    );
    let c = Generator::Create3(sample_create3());
    assert_eq!(
        c.reveal_secret(GenerationResult::Eoa { secret_key: [1; 32] }),
        Err(InvalidState::WrongStrategy)
    );
}

#[test]
fn decide_policy() {
    assert_eq!(decide(5, 3, score(4, 9)), Outcome::Discarded);
    assert_eq!(decide(5, 3, score(5, 3)), Outcome::Discarded);
    assert_eq!(decide(5, 3, score(5, 4)), Outcome::Logged);
    assert_eq!(decide(5, 3, score(6, 1)), Outcome::Logged);
    assert_eq!(decide(0, 0, score(2, 1)), Outcome::Unlogged);
    assert_eq!(decide(2, 5, score(3, 1)), Outcome::Logged);
}

#[test]
fn tracker_logs_improvements_in_order() {
    let mut t = ScoreTracker::new();
    let r = GenerationResult::Create3 { salt: [0; 32] };
    assert_eq!(t.offer([1; 20], r, score(1, 2)), Outcome::Unlogged);
    assert_eq!(t.max_zero_count, 1);
    assert_eq!(t.max_repeat_run, 0);
    assert!(t.best.is_none());
    assert_eq!(t.offer([2; 20], r, score(0, 9)), Outcome::Discarded);
    assert_eq!(t.offer([3; 20], r, score(4, 2)), Outcome::Logged);
    assert_eq!(t.max_zero_count, 4);
    assert_eq!(t.max_repeat_run, 2);
    assert_eq!(t.best.map(|b| b.0), Some([3; 20]));
    assert_eq!(t.offer([4; 20], r, score(4, 2)), Outcome::Discarded);
    assert_eq!(t.offer([5; 20], r, score(4, 3)), Outcome::Logged);
    assert_eq!(t.max_repeat_run, 3);
    assert_eq!(t.offer([6; 20], r, score(6, 1)), Outcome::Logged);
    assert_eq!(t.max_zero_count, 6);
    assert_eq!(t.max_repeat_run, 3);
    assert_eq!(t.best.map(|b| b.0), Some([6; 20]));
    assert_eq!(t.offer([7; 20], r, score(5, 20)), Outcome::Discarded);
}

#[test]
fn dominated_candidates() {
    assert!(is_dominated(3, score(2, 10)));
    assert!(!is_dominated(3, score(3, 0)));
}

#[test]
fn zero_target_stops_on_first_candidate() {
    let g = Generator::Create3(sample_create3());
    let mut t = ScoreTracker::new();
    let (address, result) = g.generate_address();
    let s = score_address(&address);
    assert_ne!(t.offer(address, result, s), Outcome::Discarded);
    assert_eq!(stop_after_candidate(s, 0), Some(StopReason::TargetReached));
    assert_eq!(stop_after_candidate(score(3, 1), 4), None);
    assert_eq!(stop_after_candidate(score(4, 1), 4), Some(StopReason::TargetReached));
}

#[test]
fn cancellation_before_start_finds_nothing() {
    assert_eq!(stop_before_generating(true), Some(StopReason::Cancelled));
    assert_eq!(stop_before_generating(false), None);
    let t = ScoreTracker::new();
    let g = Generator::Eoa(EoaGenerator {});
    assert!(matches!(final_report(&t, &g), Ok(None)));
}

#[test]
fn final_report_gives_best() {
    let g = Generator::Create3(sample_create3());
    let mut t = ScoreTracker::new();
    let r = GenerationResult::Create3 { salt: [0xab; 32] };
    t.offer([0; 20], r, score(40, 0));
    let (address, secret) = final_report(&t, &g).unwrap().unwrap();
    assert_eq!(address, format!("0x{}", "0".repeat(40)));
    assert_eq!(secret, "ab".repeat(32));
    let e = Generator::Eoa(EoaGenerator {});
    assert_eq!(final_report(&t, &e), Err(InvalidState::WrongStrategy));
}

#[test]
fn parse_count_values() {
    assert_eq!(parse_count("8"), Some(8));
    assert_eq!(parse_count("+12"), Some(12));
    assert_eq!(parse_count("007"), Some(7));
    assert_eq!(parse_count(""), None);
    assert_eq!(parse_count("+"), None);
    assert_eq!(parse_count("-1"), None);
    assert_eq!(parse_count("1a"), None);
    assert_eq!(parse_count("18446744073709551615"), Some(usize::MAX));
    assert_eq!(parse_count("18446744073709551616"), None);
}

#[test]
fn parse_eoa_arguments() {
    let (target, g) = parse_arguments(&args(&["zerohung", "eoa", "6"])).unwrap();
    assert_eq!(target, 6);
    assert!(matches!(g, Generator::Eoa(_)));
    let (target, _) = parse_arguments(&args(&["zerohung", "eoa", "+0"])).unwrap();
    assert_eq!(target, 0);
}

#[test]
fn parse_create3_arguments() {
    let deployer = "0x1111111111111111111111111111111111111111";
    let (target, g) = parse_arguments(&args(&["zerohung", "create3", "5", deployer])).unwrap();
    assert_eq!(target, 5);
    match g {
        Generator::Create3(c) => {
            assert_eq!(c.deployer_address, [0x11; 20]);
            assert_eq!(c.factory_address[0], 0x9f);
            assert_eq!(c.factory_address[19], 0xbf);
            assert_eq!(c.proxy_byte_code.len(), 16);
            assert_eq!(c.proxy_byte_code[0], 0x67);
        }
        _ => panic!("wrong mode"),
    }
    let factory = "2222222222222222222222222222222222222222";
    let (_, g) =
        parse_arguments(&args(&["zerohung", "create3", "5", deployer, factory, "0xAB01"])).unwrap();
    match g {
        Generator::Create3(c) => {
            assert_eq!(c.factory_address, [0x22; 20]);
            assert_eq!(c.proxy_byte_code, vec![0xab, 0x01]);
        }
        _ => panic!("wrong mode"),
    }
}

#[test]
fn parse_argument_errors() {
    let deployer = "0x1111111111111111111111111111111111111111";
    assert_eq!(parse_arguments(&args(&["zerohung", "eoa", "x"])).err(), Some(ArgError::InvalidTarget));
    assert_eq!(parse_arguments(&args(&["zerohung", "eoa"])).err(), Some(ArgError::MissingTarget));
    assert_eq!(parse_arguments(&args(&["zerohung"])).err(), Some(ArgError::MissingTarget));
    assert_eq!(
        parse_arguments(&args(&["zerohung", "create3"])).err(),
        Some(ArgError::MissingTarget)
    );
    assert_eq!(parse_arguments(&args(&["zerohung", "evm", "3"])).err(), Some(ArgError::UnknownMode));
    assert_eq!(
        parse_arguments(&args(&["zerohung", "create3", "3"])).err(),
        Some(ArgError::MissingDeployer)
    );
    assert_eq!(
        parse_arguments(&args(&["zerohung", "create3", "3", "0x12"])).err(),
        Some(ArgError::InvalidDeployer)
    );
    assert_eq!(
        parse_arguments(&args(&["zerohung", "create3", "3", deployer, "zz"])).err(),
        Some(ArgError::InvalidFactory)
    );
    assert_eq!(
        parse_arguments(&args(&["zerohung", "create3", "3", deployer, deployer, "abc"])).err(),
        Some(ArgError::InvalidProxyBytecode)
    );
}

#[test]
fn log_entry_reveals_secret() {
    let g = Generator::Create3(sample_create3());
    let r = GenerationResult::Create3 { salt: [0x0f; 32] };
    let line = log_entry(&g, 9, &[0; 20], r, score(40, 0)).unwrap();
    assert_eq!(line, format!("9\t0x{}\t40\t{}\n", "0".repeat(40), "0f".repeat(32)));
    let e = Generator::Eoa(EoaGenerator {});
    assert_eq!(log_entry(&e, 9, &[0; 20], r, score(40, 0)), Err(InvalidState::WrongStrategy));
}
