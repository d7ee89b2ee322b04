use mysk_lib::auth::key::{api_token_from_random, ApiKey, NewApiKey, PrefixedApiKey, API_KEY_PREFIX};

#[test]
fn prefixed_key_from_string_splits_at_underscores() {
    let key = PrefixedApiKey::from("mysk_abc_defgh".to_string());
    assert_eq!(key.get_prefix(), "mysk");
    assert_eq!(key.get_short_token(), "abc");
    assert_eq!(key.get_long_token(), "defgh");
}

#[test]
fn prefixed_key_ignores_pieces_after_the_third() {
    let key = PrefixedApiKey::from("a_b_c_d".to_string());
    assert_eq!(key.get_prefix(), "a");
    assert_eq!(key.get_short_token(), "b");
    assert_eq!(key.get_long_token(), "c");
}

#[test]
fn prefixed_key_keeps_empty_pieces() {
    let key = PrefixedApiKey::from("__x".to_string());
    assert_eq!(key.get_prefix(), "");
    assert_eq!(key.get_short_token(), "");
    assert_eq!(key.get_long_token(), "x");
}

#[test]
fn prefixed_key_to_string_joins_with_underscores() {
    let key = PrefixedApiKey::new("mysk".to_string(), "short".to_string(), "long".to_string());
    assert_eq!(key.to_string(), "mysk_short_long");
}

#[test]
fn prefixed_key_round_trip_through_text() {
    let key = PrefixedApiKey::new("mysk".to_string(), "Ab3".to_string(), "xyZ9".to_string());
    let parsed = PrefixedApiKey::from(key.to_string());
    assert_eq!(parsed.get_prefix(), "mysk");
    assert_eq!(parsed.get_short_token(), "Ab3");
    assert_eq!(parsed.get_long_token(), "xyZ9");
}

#[test]
fn prefixed_key_text_round_trip_with_two_underscores() {
    let text = "p_q_r".to_string();
    assert_eq!(PrefixedApiKey::from(text.clone()).to_string(), text);
}

#[test]
fn token_encodes_the_first_bytes_in_base58() {
    let random: Vec<u8> = (1u8..=64).collect();
    assert_eq!(api_token_from_random(&random, 8), "An6UebxCZd");
    assert_eq!(api_token_from_random(&[0u8; 64], 8), "11111111");
    assert_eq!(api_token_from_random(&random, 0), "");
}

#[test]
fn new_key_from_random_bytes() {
    let short: Vec<u8> = (1u8..=64).collect();
    let long: Vec<u8> = (1u8..=64).collect();
    let k = NewApiKey::from_random(&short, &long);
    assert_eq!(k.short_token, "An6UebxCZd");
    assert_eq!(k.long_token, "6L5yRNPTuciSgXGHqYwn9N6NeoDywHBd");
    assert_eq!(k.long_token_hash, "Gv8ZcMj9VG3c8DSNBTuM5T4kEaV94qPJ5fjRRUDp5hzh");
    assert_eq!(k.key, "mysk_An6UebxCZd_6L5yRNPTuciSgXGHqYwn9N6NeoDywHBd");
}

#[test]
fn new_key_hash_is_the_hash_of_the_long_token() {
    let k = NewApiKey::from_tokens("11111111".to_string(), "1".repeat(24));
    assert_eq!(k.long_token_hash, "EBf5wnjJDnGbJPvjN3Lu3ADY33rHGSoXMic51zzAsCHy");
    assert_eq!(k.key, format!("mysk_11111111_{}", "1".repeat(24)));
}

#[test]
fn generated_key_parses_back_into_its_tokens() {
    let k = ApiKey::generate().expect("the operating system's random source failed");
    let parsed = PrefixedApiKey::from(k.key.clone());
    assert_eq!(parsed.get_prefix(), API_KEY_PREFIX);
    assert_eq!(parsed.get_short_token(), k.short_token);
    assert_eq!(parsed.get_long_token(), k.long_token);
    assert!(!k.short_token.is_empty());
    assert!(k.long_token.len() >= k.short_token.len());
}

#[test]
fn generated_keys_differ() {
    let a = ApiKey::generate().unwrap();
    let b = ApiKey::generate().unwrap();
    assert_ne!(a.key, b.key);
}
