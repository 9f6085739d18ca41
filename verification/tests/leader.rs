use sol_slot_leader::types::ClientType;
use sol_slot_leader::{DbConfig, LeaderInfo, NoopOracle, SlotOracle};
use std::sync::Arc;

fn info(client_type: ClientType, name: Option<&str>) -> LeaderInfo {
    LeaderInfo { client_type, name: name.map(String::from) }
}

#[test]
fn harmonic_by_client_type() {
    assert!(info(ClientType::HarmonicAgave, None).is_harmonic());
    assert!(info(ClientType::HarmonicFrankenDancer, Some("plain")).is_harmonic());
}

#[test]
fn harmonic_by_name_in_any_case() {
    let other = ClientType::Other(Arc::from(""));
    assert!(info(other.clone(), Some("Harmonic-SG")).is_harmonic());
    assert!(info(other.clone(), Some("node-HARMONIC")).is_harmonic());
    assert!(info(ClientType::Agave, Some("xxhArMoNiCxx")).is_harmonic());
    assert!(!info(other.clone(), Some("harmoni")).is_harmonic());
    assert!(!info(other.clone(), Some("har monic")).is_harmonic());
    assert!(!info(other.clone(), Some("")).is_harmonic());
    assert!(!info(other, None).is_harmonic());
    assert!(!info(ClientType::JitoLabs, Some("Jito-1")).is_harmonic());
}

#[test]
fn jito() {
    assert!(info(ClientType::JitoLabs, None).is_jito());
    assert!(!info(ClientType::Agave, Some("jito")).is_jito());
}

#[test]
fn noop_oracle_never_knows_a_leader() {
    let o = NoopOracle;
    assert!(o.leader_at(0).is_none());
    assert!(o.leader_at(u64::MAX).is_none());
}

#[test]
fn db_config_keeps_url() {
    let c = DbConfig::new("mysql://u:p@host/db");
    assert_eq!(c.url, "mysql://u:p@host/db");
}
