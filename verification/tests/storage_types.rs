use stellar_wrap::{
    ContractInfo, ContractStats, DataKey, WrapComparison, WrapRecord, WrapRecordOption,
    WrapRecordV1, WrapRecordV2, DEFAULT_COUNTER_VALUE, DEFAULT_TTL_LEDGERS, HASH_BYTES,
    HASH_PREVIEW_BYTES, LEDGERS_PER_DAY, SCHEMA_VERSION, SCHEMA_VERSION_V2, SCHEMA_VERSION_V3,
    SYMBOL_MAX_CHARS, TTL_DAYS, USER_COUNT_INCREMENT, is_valid_symbol,
};

fn hash_with_prefix(prefix: [u8; 4]) -> [u8; 32] {
    let mut h = [0xffu8; 32];
    h[..4].copy_from_slice(&prefix);
    h
}

fn sample_record() -> WrapRecord {
    WrapRecord {
        timestamp: 1_700_000_000,
        data_hash: hash_with_prefix([0x0a, 0x1b, 0x2c, 0x3d]),
        archetype: "builder".to_string(),
        period: 202512,
        image_uri: "ipfs://x".to_string(),
        metadata: None,
    }
}

#[test]
fn wrap_record_option_present_is_some() {
    let o = WrapRecordOption::Present(sample_record());
    assert!(o.is_some());
    assert!(!o.is_none());
}

#[test]
fn wrap_record_option_absent_is_none() {
    let o = WrapRecordOption::Absent;
    assert!(!o.is_some());
    assert!(o.is_none());
}

#[test]
fn display_string_of_sample_record() {
    assert_eq!(
        sample_record().to_display_string(),
        "WrapRecord { period: 202512, archetype: Symbol(builder), timestamp: 1700000000, \
         data_hash: 0a1b2c3d..., image_uri: String(ipfs://x) }"
    );
}

#[test]
fn display_string_edge_values() {
    let r = WrapRecord {
        timestamp: u64::MAX,
        data_hash: [0u8; 32],
        archetype: "defi".to_string(),
        period: 0,
        image_uri: String::new(),
        metadata: Some("note".to_string()),
    };
    assert_eq!(
        r.to_display_string(),
        "WrapRecord { period: 0, archetype: Symbol(defi), timestamp: 18446744073709551615, \
         data_hash: 00000000..., image_uri: String() }"
    );
}

#[test]
fn display_hex_is_lower_case_two_digits() {
    let mut r = sample_record();
    r.data_hash = hash_with_prefix([0x00, 0x09, 0xab, 0xf0]);
    r.period = 9;
    r.timestamp = 10;
    assert_eq!(
        r.to_display_string(),
        "WrapRecord { period: 9, archetype: Symbol(builder), timestamp: 10, \
         data_hash: 0009abf0..., image_uri: String(ipfs://x) }"
    );
}

#[test]
fn display_ignores_metadata_and_hidden_hash_bytes() {
    let a = sample_record();
    let mut b = sample_record();
    b.metadata = Some("changed".to_string());
    b.data_hash[4] = 0x00;
    b.data_hash[31] = 0x42;
    assert_eq!(a.to_display_string(), b.to_display_string());
    let mut c = sample_record();
    c.data_hash[3] = 0x00;
    assert_ne!(a.to_display_string(), c.to_display_string());
}

#[test]
fn display_preview_length_matches_constant() {
    let s = sample_record().to_display_string();
    let start = s.find("data_hash: ").unwrap() + "data_hash: ".len();
    let end = s.find("...").unwrap();
    assert_eq!(end - start, 2 * HASH_PREVIEW_BYTES);
}

#[test]
fn constants_values() {
    assert_eq!(HASH_BYTES, 32);
    assert_eq!(HASH_PREVIEW_BYTES, 4);
    assert!(HASH_PREVIEW_BYTES <= HASH_BYTES);
    assert_eq!(SCHEMA_VERSION, 1);
    assert_eq!(SCHEMA_VERSION_V2, 2);
    assert_eq!(SCHEMA_VERSION_V3, 3);
}

#[test]
fn record_versions_hold_their_fields() {
    let v1 = WrapRecordV1 {
        timestamp: 5,
        data_hash: [1u8; 32],
        archetype: "patron".to_string(),
        period: 202401,
    };
    let v2 = WrapRecordV2 {
        timestamp: v1.timestamp,
        data_hash: v1.data_hash,
        archetype: v1.archetype.clone(),
        period: v1.period,
        image_uri: "ipfs://y".to_string(),
    };
    assert_eq!(v2.clone(), v2);
    assert_eq!(v1.clone(), v1);
}

#[test]
fn comparison_and_stats_compare_by_fields() {
    let cmp = WrapComparison {
        user_a_wrap: WrapRecordOption::Present(sample_record()),
        user_b_wrap: WrapRecordOption::Absent,
        both_have_wrap: false,
        same_archetype: false,
        period: 202512,
    };
    assert_eq!(cmp.clone(), cmp);
    let stats = ContractStats {
        total_mints: 3,
        admin: Some("GABC".to_string()),
        is_initialized: true,
        last_mint_timestamp: Some(7),
        schema_version: SCHEMA_VERSION,
    };
    let mut other = stats.clone();
    assert_eq!(stats, other);
    other.total_mints = 4;
    assert_ne!(stats, other);
    let info = ContractInfo {
        name: "Stellar Wrap Registry".to_string(),
        version: "0.1.0".to_string(),
        repo: String::new(),
        description: "Soulbound token registry for Stellar Wrap".to_string(),
    };
    assert_eq!(info.clone(), info);
}

#[test]
fn data_keys_distinguish_user_and_period() {
    let a = DataKey::Wrap("GUSER".to_string(), 202512);
    assert_eq!(a, DataKey::Wrap("GUSER".to_string(), 202512));
    assert_ne!(a, DataKey::Wrap("GUSER".to_string(), 202601));
    assert_ne!(a, DataKey::Wrap("GOTHER".to_string(), 202512));
    assert_ne!(DataKey::WrapCount("G".to_string()), DataKey::LatestPeriod("G".to_string()));
    assert_ne!(DataKey::Admin, DataKey::AdminPubKey);
}

#[test]
fn display_tells_apart_period_timestamp_and_preview() {
    let a = sample_record();
    let mut b = sample_record();
    b.period = 202601;
    assert_ne!(a.to_display_string(), b.to_display_string());
    let mut c = sample_record();
    c.timestamp += 1;
    assert_ne!(a.to_display_string(), c.to_display_string());
    let mut d = sample_record();
    d.data_hash[0] = 0x0b;
    assert_ne!(a.to_display_string(), d.to_display_string());
}

#[test]
fn timing_constants_agree() {
    assert_eq!(LEDGERS_PER_DAY * 5, 24 * 60 * 60);
    assert_eq!(DEFAULT_TTL_LEDGERS, LEDGERS_PER_DAY * TTL_DAYS);
    assert_eq!(DEFAULT_TTL_LEDGERS, 6_307_200);
    assert_eq!(DEFAULT_COUNTER_VALUE, 0);
    assert_eq!(USER_COUNT_INCREMENT, 1);
}

#[test]
fn symbol_text_validity() {
    assert!(is_valid_symbol("builder"));
    assert!(is_valid_symbol("soroban_architect"));
    assert!(is_valid_symbol("Diamond_Hand_2"));
    assert!(is_valid_symbol(""));
    assert!(is_valid_symbol(&"a".repeat(SYMBOL_MAX_CHARS)));
    assert!(!is_valid_symbol(&"a".repeat(SYMBOL_MAX_CHARS + 1)));
    assert!(!is_valid_symbol("defi patron"));
    assert!(!is_valid_symbol("defi-patron"));
    assert!(!is_valid_symbol("caf\u{e9}"));
}

#[test]
fn checked_constructors_accept_symbol_archetypes() {
    let r = WrapRecord::new(
        1_700_000_000,
        [7u8; 32],
        "soroban_architect".to_string(),
        202512,
        "ipfs://x".to_string(),
        None,
    )
    .unwrap();
    assert_eq!(r.archetype, "soroban_architect");
    assert_eq!(r.period, 202512);
    assert_eq!(r.data_hash, [7u8; 32]);
    let v1 = WrapRecordV1::new(5, [1u8; 32], "patron".to_string(), 202401).unwrap();
    assert_eq!(v1.timestamp, 5);
    let v2 = WrapRecordV2::new(5, [1u8; 32], "defi".to_string(), 202401, String::new()).unwrap();
    assert_eq!(v2.archetype, "defi");
}

#[test]
fn checked_constructors_refuse_other_archetypes() {
    assert!(WrapRecord::new(0, [0u8; 32], "diamond-hand".to_string(), 1, String::new(), None)
        .is_none());
    assert!(WrapRecordV1::new(0, [0u8; 32], "a".repeat(SYMBOL_MAX_CHARS + 1), 1).is_none());
    assert!(WrapRecordV2::new(0, [0u8; 32], "two words".to_string(), 1, String::new()).is_none());
}
