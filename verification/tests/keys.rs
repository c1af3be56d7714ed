use soroban_sdk::Env;
use stellar_link::key::{generate_random_key, symbol_for};
use stellar_link::StellarLinkContract;

const ALPHABET: &[u8] = b"abcdefghijklmnopqrstuvwxyzABCDEFGHIJKLMNOPQRSTUVWXYZ0123456789";

#[test]
fn symbols_follow_the_alphabet() {
    for digit in 0..62u64 {
        assert_eq!(symbol_for(digit), ALPHABET[digit as usize]);
    }
    assert_eq!(symbol_for(0), b'a');
    assert_eq!(symbol_for(25), b'z');
    assert_eq!(symbol_for(26), b'A');
    assert_eq!(symbol_for(51), b'Z');
    assert_eq!(symbol_for(52), b'0');
    assert_eq!(symbol_for(61), b'9');
}

#[test]
fn key_of_seed_zero_is_all_a() {
    assert_eq!(generate_random_key(0, 0), b"aaaaaaa".to_vec());
}

#[test]
fn key_has_least_significant_digit_first() {
    assert_eq!(generate_random_key(1, 0), b"baaaaaa".to_vec());
    assert_eq!(generate_random_key(0, 61), b"9aaaaaa".to_vec());
    assert_eq!(generate_random_key(0, 62), b"abaaaaa".to_vec());
}

#[test]
fn key_of_an_ordinary_ledger() {
    assert_eq!(generate_random_key(100, 1_700_000_000), b"CQbd1ba".to_vec());
    assert_eq!(generate_random_key(12345, 1_234_567_890_123), b"QBgvKTv".to_vec());
}

#[test]
fn seed_wraps_around() {
    assert_eq!(generate_random_key(1, u64::MAX), b"aaaaaaa".to_vec());
    assert_eq!(generate_random_key(u32::MAX, u64::MAX), b"cmpPQea".to_vec());
}

#[test]
fn key_keeps_only_seven_digits() {
    let key_space: u64 = 62u64.pow(7);
    assert_eq!(generate_random_key(0, key_space), generate_random_key(0, 0));
    assert_eq!(generate_random_key(5, key_space - 1), b"eaaaaaa".to_vec());
}

#[test]
fn key_is_seven_symbols_of_the_alphabet() {
    for (sequence, timestamp) in [(0u32, 0u64), (7, 1_700_000_000), (u32::MAX, u64::MAX), (3, 99)] {
        let key = generate_random_key(sequence, timestamp);
        assert_eq!(key.len(), 7);
        assert!(key.iter().all(|byte| ALPHABET.contains(byte)));
    }
}

#[test]
fn key_differs_at_another_sequence_or_timestamp() {
    let first = generate_random_key(100, 1_700_000_000);
    assert_ne!(first, generate_random_key(101, 1_700_000_000));
    assert_ne!(first, generate_random_key(100, 1_700_000_005));
    assert_eq!(generate_random_key(101, 1_700_000_000), b"DQbd1ba".to_vec());
    assert_eq!(generate_random_key(100, 1_700_000_005), b"HQbd1ba".to_vec());
}

#[test]
fn create_without_key_files_under_the_derived_key() {
    let env = Env::default();
    let mut registry = StellarLinkContract::new(&env);
    let owner: &[u8] = b"GA7QYNF7SOWQ3GLR2BGMZEHXAVIRZA4KVWLTJJFC7MGXUA74P7UJVSGZ";
    let url: &[u8] = b"https://example.com/derived";

    let key = registry.create_link(true, owner, url, None, 100, 1_700_000_000).unwrap();
    assert_eq!(key, b"CQbd1ba".to_vec());
    assert_eq!(key.len(), 7);
    assert!(key.iter().all(|byte| ALPHABET.contains(byte)));
    assert_eq!(registry.get_url(&key), Ok(url.to_vec()));
    assert_eq!(registry.get_link(&key).unwrap().created_ledger, 100);

    let next = registry.create_link(true, owner, url, None, 101, 1_700_000_005).unwrap();
    assert_ne!(next, key);
    assert_eq!(registry.get_url(&next), Ok(url.to_vec()));
}

#[test]
fn create_without_key_in_the_same_ledger_conflicts() {
    let env = Env::default();
    let mut registry = StellarLinkContract::new(&env);
    let owner: &[u8] = b"GA7QYNF7SOWQ3GLR2BGMZEHXAVIRZA4KVWLTJJFC7MGXUA74P7UJVSGZ";

    registry.create_link(true, owner, b"https://example.com/1", None, 7, 70).unwrap();
    let second = registry.create_link(true, owner, b"https://example.com/2", None, 7, 70);
    assert_eq!(second, Err(stellar_link::LinkError::KeyConflict));
    let same_seed = registry.create_link(true, owner, b"https://example.com/3", None, 70, 7);
    assert_eq!(same_seed, Err(stellar_link::LinkError::KeyConflict));
}
