use sha2::Digest;
use eva_kernel::audit::{first_broken_link, AuditLoadError, AuditRecord, AuditTrail};

fn details(pairs: &[(&str, serde_json::Value)]) -> String {
    let mut m = serde_json::Map::new();
    for (k, v) in pairs {
        m.insert(k.to_string(), v.clone());
    }
    serde_json::Value::Object(m).to_string()
}

fn is_lower_hex(s: &str) -> bool {
    s.chars().all(|c| c.is_ascii_digit() || ('a'..='f').contains(&c))
}

#[test]
fn test_audit_record_hash() {
    let record = AuditRecord::new(
        "banker".to_string(),
        "TRADE_EXECUTED".to_string(),
        details(&[("symbol", serde_json::Value::from("XAUUSD")), ("volume", serde_json::Value::from(0.5))]),
        "genesis".to_string(),
    );

    assert!(!record.record_hash.is_empty());
    assert!(record.verify());
}

#[test]
fn test_audit_trail_chain() {
    let mut trail = AuditTrail::new(100);

    trail.record("core", "INTENT_CLASSIFIED", details(&[("intent", serde_json::Value::from("TRADING_ORDER"))]));

    trail.record("banker", "TRADE_EXECUTED", details(&[("ticket", serde_json::Value::from(12345))]));

    trail.record("kernel", "RISK_VALIDATED", details(&[("allowed", serde_json::Value::from(true))]));

    assert_eq!(trail.len(), 3);
    assert!(trail.verify_chain());
}

#[test]
fn test_audit_trail_integrity() {
    let mut trail = AuditTrail::new(10);

    trail.record("test", "ACTION", details(&[("data", serde_json::Value::from(1))]));
    trail.record("test", "ACTION", details(&[("data", serde_json::Value::from(2))]));

    assert!(trail.verify_chain());
}

#[test]
fn hash_is_sha256_of_canonical_json() {
    let r = AuditRecord::with_stamp(
        "id-1".to_string(),
        "2026-01-01T00:00:00+00:00".to_string(),
        "kernel".to_string(),
        "TEST".to_string(),
        "{\"a\":1}".to_string(),
        "genesis".to_string(),
    );
    let canonical = "{\"id\":\"id-1\",\"timestamp\":\"2026-01-01T00:00:00+00:00\",\"agent\":\"kernel\",\"action\":\"TEST\",\"details\":{\"a\":1},\"previous_hash\":\"genesis\"}";
    let expected: String = sha2::Sha256::digest(canonical.as_bytes()).iter().map(|b| format!("{:02x}", b)).collect();
    assert_eq!(r.record_hash, expected);
}

#[test]
fn hash_is_64_lower_hex_and_stable() {
    let r = AuditRecord::new("a".to_string(), "B".to_string(), "{}".to_string(), "genesis".to_string());
    assert_eq!(r.record_hash.len(), 64);
    assert!(is_lower_hex(&r.record_hash));
    assert_eq!(r.compute_hash(), r.compute_hash());
    assert_eq!(r.compute_hash(), r.record_hash);
}

#[test]
fn quoting_changes_the_hash() {
    let a = AuditRecord::with_stamp("x".into(), "t".into(), "ag\"ent".into(), "A".into(), "{}".into(), "genesis".into());
    let b = AuditRecord::with_stamp("x".into(), "t".into(), "agent".into(), "A".into(), "{}".into(), "genesis".into());
    assert_ne!(a.record_hash, b.record_hash);
    assert!(a.verify());
}

#[test]
fn each_record_links_to_its_predecessor() {
    let mut trail = AuditTrail::new(100);
    for i in 0..5 {
        trail.record("kernel", "STEP", format!("{{\"i\":{}}}", i));
    }
    assert_eq!(trail.records[0].previous_hash, "genesis");
    for i in 1..5 {
        assert_eq!(trail.records[i].previous_hash, trail.records[i - 1].record_hash);
        assert_eq!(trail.records[i].record_hash, trail.records[i].compute_hash());
    }
    assert_eq!(trail.get_last_hash(), trail.records[4].record_hash);
}

#[test]
fn tampering_with_record_500_is_found() {
    let mut trail = AuditTrail::new(1000);
    for i in 0..1000 {
        trail.record("kernel", "ACTION", format!("{{\"n\":{}}}", i));
    }
    assert!(trail.verify_chain());
    trail.records[500].action = "TAMPERED".to_string();
    assert!(!trail.verify_chain());
    assert_eq!(trail.first_broken_index(), Some(500));
    assert_eq!(first_broken_link(&trail.records, "genesis"), Some(500));
}

#[test]
fn window_evicts_oldest_and_stays_intact() {
    let mut trail = AuditTrail::new(3);
    let mut hashes = Vec::new();
    for i in 0..5 {
        let r = trail.record("kernel", "E", format!("{{\"i\":{}}}", i));
        hashes.push(r.record_hash);
    }
    assert_eq!(trail.len(), 3);
    assert_eq!(trail.records[0].record_hash, hashes[2]);
    assert_eq!(trail.base_hash, hashes[1]);
    assert!(trail.verify_chain());
}

#[test]
fn recent_is_newest_first_and_bounded() {
    let mut trail = AuditTrail::new(10);
    assert!(trail.is_empty());
    for i in 0..4 {
        trail.record("kernel", &format!("A{}", i), "{}".to_string());
    }
    let recent = trail.get_recent(2);
    assert_eq!(recent.len(), 2);
    assert_eq!(recent[0].action, "A3");
    assert_eq!(recent[1].action, "A2");
    assert_eq!(trail.get_recent(50).len(), 4);
}

fn stored(n: usize) -> Vec<AuditRecord> {
    let mut trail = AuditTrail::new(100);
    for i in 0..n {
        trail.record("kernel", "E", format!("{{\"i\":{}}}", i));
    }
    trail.records
}

#[test]
fn load_drops_truncated_last_entry() {
    let mut entries: Vec<Option<AuditRecord>> = stored(4).into_iter().map(Some).collect();
    entries.push(None);
    let trail = AuditTrail::from_loaded(entries, 2).unwrap();
    assert_eq!(trail.len(), 2);
    assert!(trail.verify_chain());
    assert_ne!(trail.base_hash, "genesis");
}

#[test]
fn load_rejects_earlier_malformed_entry() {
    let mut entries: Vec<Option<AuditRecord>> = stored(4).into_iter().map(Some).collect();
    entries[1] = None;
    assert_eq!(AuditTrail::from_loaded(entries, 10).err(), Some(AuditLoadError::MalformedRecord(1)));
}

#[test]
fn load_rejects_broken_chain() {
    let mut records = stored(4);
    records[2].details = "{\"i\":99}".to_string();
    let entries: Vec<Option<AuditRecord>> = records.into_iter().map(Some).collect();
    assert_eq!(AuditTrail::from_loaded(entries, 10).err(), Some(AuditLoadError::BrokenChain(2)));
}

#[test]
fn load_of_nothing_is_empty() {
    let trail = AuditTrail::from_loaded(Vec::new(), 10).unwrap();
    assert!(trail.is_empty());
    assert_eq!(trail.get_last_hash(), "genesis");
}

#[test]
fn hex_encode_two_lowercase_digits_per_byte() {
    assert_eq!(eva_kernel::hex::encode(&vec![0x00, 0xab, 0x1f, 0xff]), "00ab1fff");
    assert_eq!(eva_kernel::hex::encode(&Vec::new()), "");
}

#[test]
fn control_characters_are_escaped_in_the_hashed_text() {
    let r = AuditRecord::with_stamp("i".into(), "t".into(), "a\n\u{1}".into(), "A".into(), "{}".into(), "genesis".into());
    let canonical = "{\"id\":\"i\",\"timestamp\":\"t\",\"agent\":\"a\\n\\u0001\",\"action\":\"A\",\"details\":{},\"previous_hash\":\"genesis\"}";
    let expected: String = sha2::Sha256::digest(canonical.as_bytes()).iter().map(|b| format!("{:02x}", b)).collect();
    assert_eq!(r.record_hash, expected);
}
