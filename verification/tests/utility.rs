use aquachain::chain::Context;
use aquachain::json::JsonPayload;
use aquachain::utility::{ContractError, UtilityWaterFootprintContract, DEFAULT_DENOM};
use serde_json::Value;

const NOW: u64 = 1_571_797_419;

fn ctx(sender: &str) -> Context {
    Context { sender: sender.to_string(), funds: vec![], block_time: NOW }
}

fn value(text: &str) -> Value {
    serde_json::from_str(text).unwrap()
}

fn payload(text: &str) -> JsonPayload {
    JsonPayload::from_value(&value(text))
}

fn registry() -> UtilityWaterFootprintContract {
    let mut c = UtilityWaterFootprintContract::new();
    c.instantiate(&ctx("admin"), Some(DEFAULT_DENOM.to_string()));
    c
}

/// A registry where "owner" registered company 1, "Aqua Co".
fn with_company() -> UtilityWaterFootprintContract {
    let mut c = registry();
    c.register_company(&ctx("owner"), "Aqua Co", &payload(r#"{"ok": true}"#)).unwrap();
    c
}

#[test]
fn register_company_and_get_profile() {
    let mut c = registry();
    let metadata = value(r#"{ "sector": "utility", "region": "north" }"#);
    c.register_company(&ctx("owner"), "Aqua Co", &JsonPayload::from_value(&metadata)).unwrap();
    let company = c.get_company(1).unwrap();
    assert_eq!(company.id, 1);
    assert_eq!(company.owner, "owner");
    assert_eq!(company.name, "Aqua Co");
    assert_eq!(company.metadata_str, metadata.to_string());
}

#[test]
fn log_usage_rejects_unauthenticated_caller() {
    let mut c = with_company();
    let res = c.log_usage(&ctx("stranger"), 1, "2026-Q1", 1000, 100);
    assert!(res.is_err());
    assert!(res.unwrap_err().message().contains(&ContractError::Unauthorized.message()));
}

#[test]
fn log_usage_rejects_illogical_metrics_and_empty_period() {
    let mut c = with_company();
    let empty_period = c.log_usage(&ctx("owner"), 1, "  ", 100, 10);
    assert!(empty_period.is_err());
    assert!(empty_period.unwrap_err().message().contains(&ContractError::EmptyPeriod.message()));
    let illogical = c.log_usage(&ctx("owner"), 1, "2026-Q1", 100, 150);
    assert!(illogical.is_err());
    assert!(illogical.unwrap_err().message().contains(&ContractError::IllogicalMetrics.message()));
    let zero_usage = c.log_usage(&ctx("owner"), 1, "2026-Q1", 0, 0);
    assert!(zero_usage.is_err());
    assert!(zero_usage.unwrap_err().message().contains(&ContractError::ZeroUsage.message()));
}

#[test]
fn only_verifier_or_admin_can_validate_log() {
    let mut c = with_company();
    c.log_usage(&ctx("owner"), 1, "2026-Q1", 1000, 200).unwrap();
    assert!(c.validate_log(&ctx("outsider"), 1).is_err());
    c.add_verifier(&ctx("admin"), "verifier".to_string()).unwrap();
    c.validate_log(&ctx("verifier"), 1).unwrap();
    let logs = c.list_logs(Some(1), Some(10), None);
    assert_eq!(logs.len(), 1);
    assert!(logs[0].validated);
    assert_eq!(logs[0].validator.as_ref(), Some(&"verifier".to_string()));
}

#[test]
fn certificate_requires_criteria_and_blocks_double_issue() {
    let mut c = with_company();
    c.log_usage(&ctx("owner"), 1, "2026-Q1", 1000, 50).unwrap();
    c.validate_log(&ctx("admin"), 1).unwrap();
    let low = c.issue_certificate(&ctx("admin"), 1, "2026-Q1");
    assert!(low.is_err());
    assert!(low.unwrap_err().message().contains(&ContractError::CriteriaNotMet.message()));
    c.log_usage(&ctx("owner"), 1, "2026-Q1", 1000, 250).unwrap();
    c.validate_log(&ctx("admin"), 2).unwrap();
    c.issue_certificate(&ctx("admin"), 1, "2026-Q1").unwrap();
    let cert = c.get_certificate(1).unwrap();
    assert_eq!(cert.company_id, 1);
    assert_eq!(cert.period, "2026-Q1");
    assert_eq!(cert.total_usage, 2000);
    assert_eq!(cert.total_savings, 300);
    let again = c.issue_certificate(&ctx("admin"), 1, "2026-Q1");
    assert!(again.is_err());
    assert!(again.unwrap_err().message().contains(&ContractError::AlreadyIssued.message()));
}

#[test]
fn list_companies_and_certificates_paginate() {
    let mut c = registry();
    for i in 1..=3 {
        let metadata = payload(&format!(r#"{{ "n": {i} }}"#));
        c.register_company(&ctx("owner"), &format!("Co {i}"), &metadata).unwrap();
    }
    let page1 = c.list_companies(Some(2), None);
    assert_eq!(page1.len(), 2);
    assert_eq!(page1[0].id, 1);
    assert_eq!(page1[1].id, 2);
    let page2 = c.list_companies(Some(2), Some(2));
    assert_eq!(page2.len(), 1);
    assert_eq!(page2[0].id, 3);
    c.log_usage(&ctx("owner"), 1, "2026-Q2", 100, 20).unwrap();
    c.validate_log(&ctx("admin"), 1).unwrap();
    c.issue_certificate(&ctx("admin"), 1, "2026-Q2").unwrap();
    let certs = c.list_certificates(Some(1), Some(10), None);
    assert_eq!(certs.len(), 1);
    assert_eq!(certs[0].id, 1);
}

#[test]
fn remove_verifier_is_admin_only() {
    let mut c = registry();
    c.add_verifier(&ctx("admin"), "verifier".to_string()).unwrap();
    assert!(c.is_verifier(&"verifier".to_string()));
    assert!(c.remove_verifier(&ctx("owner"), "verifier".to_string()).is_err());
    c.remove_verifier(&ctx("admin"), "verifier".to_string()).unwrap();
    assert!(!c.is_verifier(&"verifier".to_string()));
}
