use ed25519_dalek::SigningKey;
use rand::rngs::OsRng;

use kakureyado::onion::{
    data_encoding_hex_lowercase, generate_onion_identity, onion_address_for_secret,
    onion_address_from_pubkey,
};
use kakureyado::vanity::{
    expected_attempts, has_prefix, normalize_prefix, vanity_batch, vanity_search,
};

fn hex32(s: &str) -> [u8; 32] {
    let mut out = [0u8; 32];
    for i in 0..32 {
        out[i] = u8::from_str_radix(&s[2 * i..2 * i + 2], 16).unwrap();
    }
    out
}

#[test]
fn onion_address_is_56_chars() {
    let signing_key = SigningKey::generate(&mut OsRng);
    let pubkey = signing_key.verifying_key().to_bytes();
    let addr = onion_address_from_pubkey(&pubkey);
    assert!(addr.ends_with(".onion"));
    let base = addr.strip_suffix(".onion").unwrap();
    assert_eq!(base.len(), 56, "base32 portion must be 56 chars");
}

#[test]
fn base32_known_vectors() {
    let mut input = [0u8; 35];
    for (i, b) in input.iter_mut().enumerate() {
        *b = i as u8;
    }
    assert_eq!(
        data_encoding_hex_lowercase(input),
        "aaaqeayeaudaocajbifqydiob4ibceqtcqkrmfyydenbwha5dypsaijc"
    );
    assert_eq!(
        data_encoding_hex_lowercase([255u8; 35]),
        "77777777777777777777777777777777777777777777777777777777"
    );
    assert_eq!(data_encoding_hex_lowercase([0u8; 35]), "a".repeat(56));
}

#[test]
fn address_of_zero_key() {
    assert_eq!(
        onion_address_from_pubkey(&[0u8; 32]),
        "aaaaaaaaaaaaaaaaaaaaaaaaaaaaaaaaaaaaaaaaaaaaaaaaaaam2dqd.onion"
    );
}

#[test]
fn address_of_rfc8032_key() {
    let secret = hex32("9d61b19deffd5a60ba844af492ec2cc44449c5697b326919703bac031cae7f60");
    let pubkey = hex32("d75a980182b10ab7d54bfed3c964073a0ee172f3daa62325af021a68f707511a");
    let expected = "25njqamcweflpvkl73j4szahhihoc4xt3ktcgjnpaingr5yhkenl5sid.onion";
    assert_eq!(onion_address_from_pubkey(&pubkey), expected);
    assert_eq!(onion_address_for_secret(&secret), expected);
}

#[test]
fn distinct_keys_distinct_addresses() {
    let mut a = [0u8; 32];
    let mut b = [0u8; 32];
    a[31] = 1;
    b[31] = 2;
    assert_ne!(onion_address_from_pubkey(&a), onion_address_from_pubkey(&b));
}

#[test]
fn generated_identity_matches_its_key() {
    let (secret, address) = generate_onion_identity();
    assert_eq!(onion_address_for_secret(&secret), address);
    let expected = SigningKey::from_bytes(&secret).verifying_key().to_bytes();
    assert_eq!(onion_address_from_pubkey(&expected), address);
}

// -- vanity search ------------------------------------------------------------

#[test]
fn empty_prefix_always_succeeds() {
    let outcome = vanity_batch("", 1);
    let address = outcome.address.expect("empty prefix must succeed");
    assert!(address.ends_with(".onion"));
    assert_eq!(outcome.attempts, 1);
}

#[test]
fn found_address_comes_with_its_key() {
    let outcome = vanity_batch("", 3);
    let address = outcome.address.expect("empty prefix must succeed");
    let key = outcome.secret_key.expect("the key comes with the address");
    assert_eq!(onion_address_for_secret(&key), address);
    assert_eq!(address.len(), 62);
}

#[test]
fn generates_valid_onion_with_prefix() {
    let prefix = normalize_prefix("A");
    let mut found = None;
    while found.is_none() {
        found = vanity_batch(&prefix, 1000).address;
    }
    let address = found.unwrap();
    assert!(address.starts_with('a'));
    assert!(address.ends_with(".onion"));
}

#[test]
fn impossible_prefix_uses_whole_batch() {
    let outcome = vanity_batch("1", 5);
    assert!(outcome.address.is_none());
    assert!(outcome.secret_key.is_none());
    assert_eq!(outcome.attempts, 5);
    let outcome = vanity_batch("a", 0);
    assert!(outcome.address.is_none());
    assert_eq!(outcome.attempts, 0);
}

#[test]
fn prefix_check() {
    assert!(has_prefix("abcdef.onion", "abc"));
    assert!(has_prefix("abc", ""));
    assert!(!has_prefix("ab", "abc"));
    assert!(!has_prefix("abd", "abc"));
    assert_eq!(normalize_prefix("PleMe"), "pleme");
}

#[test]
fn expected_attempts_grow_by_32() {
    assert_eq!(expected_attempts(0), 1);
    assert_eq!(expected_attempts(1), 32);
    assert_eq!(expected_attempts(2), 1024);
    assert_eq!(expected_attempts(3), 32768);
    assert_eq!(expected_attempts(25), 1u128 << 125);
    for n in 0..25 {
        assert_eq!(expected_attempts(n + 1), 32 * expected_attempts(n));
    }
}

#[test]
fn search_lowercases_the_prefix() {
    let mut found = None;
    while found.is_none() {
        found = vanity_search("A", 1000).address;
    }
    assert!(found.unwrap().starts_with('a'));
    let outcome = vanity_search("", 1);
    assert_eq!(outcome.attempts, 1);
    assert!(outcome.address.is_some());
}
