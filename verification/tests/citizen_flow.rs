use aquachain::chain::{Coin, Context, Response};
use aquachain::citizen::{CitizenScienceRegistry, ContractError, DEFAULT_DENOM};
use aquachain::json::JsonPayload;
use serde_json::Value;

const NOW: u64 = 1_571_797_419;
const REWARD_AMOUNT: u128 = 10;

fn ctx(sender: &str) -> Context {
    Context { sender: sender.to_string(), funds: vec![], block_time: NOW }
}

fn ctx_paying(sender: &str, amount: u128, denom: &str) -> Context {
    Context {
        sender: sender.to_string(),
        funds: vec![Coin { denom: denom.to_string(), amount }],
        block_time: NOW,
    }
}

fn value(text: &str) -> Value {
    serde_json::from_str(text).unwrap()
}

fn payload(text: &str) -> JsonPayload {
    JsonPayload::from_value(&value(text))
}

fn registry(admin: &str) -> CitizenScienceRegistry {
    let mut c = CitizenScienceRegistry::new();
    c.instantiate(&ctx(admin), Some(DEFAULT_DENOM.to_string()));
    c
}

/// A registry with one sensor proposed by `submitter` and activated by the admin.
fn with_active_sensor(admin: &str, submitter: &str) -> CitizenScienceRegistry {
    let mut c = registry(admin);
    assert!(c
        .submit_sensor(&ctx(submitter), &payload(r#"{"name": "field", "location": "field"}"#))
        .is_ok());
    assert!(c.activate(&ctx(admin), 1).is_ok());
    c
}

fn has_attr(res: &Response, key: &str, value: &str) -> bool {
    res.attributes.iter().any(|a| a.key == key && a.value == value)
}

#[test]
fn integration_instantiate_and_sets_admin_correctly() {
    let mut c = registry("deployer");
    assert!(c.add_verifier(&ctx("deployer"), "someone".to_string()).is_ok());
}

#[test]
fn integration_submit_sensor_succeeds_for_valid_json() {
    let mut c = registry("admin");
    let data = value(
        r#"{"name": "Temperature Sensor", "location": "Greenhouse 3", "meta": { "model": "T-1000", "units": "Celsius" }}"#,
    );
    assert!(c.submit_sensor(&ctx("user"), &JsonPayload::from_value(&data)).is_ok());
    let s = c.get_sensor(1).unwrap();
    assert_eq!(s.data_str, data.to_string());
    assert_eq!(s.owner, "user");
}

#[test]
fn integration_submit_sensor_fails_on_invalid_json() {
    let mut c = registry("admin");
    for invalid in ["\"\"", "{}", "[]"] {
        assert!(c.submit_sensor(&ctx("user"), &payload(invalid)).is_err());
    }
}

#[test]
fn integration_activate_sensor_once_only() {
    let mut c = registry("admin");
    assert!(c
        .submit_sensor(&ctx("submitter"), &payload(r#"{"name": "forest", "location": "north"}"#))
        .is_ok());
    assert!(c.activate(&ctx("admin"), 1).is_ok());
    let res = c.activate(&ctx("admin"), 1);
    assert!(res.is_err());
    assert!(res.unwrap_err().message().contains(&ContractError::AlreadyActivated.message()));
}

#[test]
fn integration_activate_sensor_fails_for_non_admin() {
    let mut c = registry("admin");
    c.submit_sensor(&ctx("alice"), &payload(r#"{ "name": "sensor", "loc": "x" }"#)).unwrap();
    assert!(c.activate(&ctx("alice"), 1).is_err());
}

#[test]
fn integration_deactivate_sensor() {
    let mut c = registry("admin");
    assert!(c
        .submit_sensor(&ctx("submitter"), &payload(r#"{"name": "valley", "location": "south"}"#))
        .is_ok());
    assert!(c.activate(&ctx("admin"), 1).is_ok());
    assert!(c.deactivate(&ctx("admin"), 1).is_ok());
    assert_eq!(c.get_sensor(1).unwrap().status.label(), "Inactive");
    let res = c.deactivate(&ctx("intruder"), 1);
    assert!(res.is_err());
    assert!(res.unwrap_err().message().contains(&ContractError::Unauthorized.message()));
}

#[test]
fn integration_deactivate_sensor_twice_is_ok() {
    let mut c = registry("admin");
    c.submit_sensor(&ctx("admin"), &payload(r#"{ "foo": "bar" }"#)).unwrap();
    c.activate(&ctx("admin"), 1).unwrap();
    c.deactivate(&ctx("admin"), 1).unwrap();
    assert!(c.deactivate(&ctx("admin"), 1).is_ok());
}

#[test]
fn integration_add_verifier_fails_for_non_admin() {
    let mut c = registry("admin");
    assert!(c.add_verifier(&ctx("user"), "user".to_string()).is_err());
}

#[test]
fn integration_add_verifier_twice_fails() {
    let mut c = registry("admin");
    assert!(c.add_verifier(&ctx("admin"), "verifier1".to_string()).is_ok());
    let res = c.add_verifier(&ctx("admin"), "verifier1".to_string());
    assert!(res.is_err());
    assert!(res.unwrap_err().message().contains(&ContractError::VerifierAlreadyExists.message()));
}

#[test]
fn integration_submit_data() {
    let mut c = with_active_sensor("admin", "submitter");
    let data = value(r#"{"temperature": 22, "location": "field"}"#);
    assert!(c.submit_data(&ctx("submitter"), 1, &JsonPayload::from_value(&data)).is_ok());
    let entry = c.get_data_entry(1).unwrap();
    assert_eq!(entry.id, 1);
    assert_eq!(entry.data_str, data.to_string());
    assert_eq!(entry.submitter, "submitter");
    assert!(!entry.verified);
    assert!(entry.verifier.is_none());
    assert!(!entry.rewarded);
}

#[test]
fn integration_submit_data_fails_on_duplicate() {
    let mut c = with_active_sensor("admin", "submitter");
    let data = payload(r#"{"temperature": 22, "location": "field"}"#);
    assert!(c.submit_data(&ctx("submitter"), 1, &data).is_ok());
    let res = c.submit_data(&ctx("submitter"), 1, &data);
    assert!(res.is_err());
    assert!(res.unwrap_err().message().contains(&ContractError::DuplicateData.message()));
}

#[test]
fn integration_submit_data_fails_on_invalid_json() {
    let mut c = with_active_sensor("admin", "submitter");
    for invalid in ["\"\"", "{}", "[]"] {
        let res = c.submit_data(&ctx("submitter"), 1, &payload(invalid));
        assert!(res.is_err());
        assert!(res.unwrap_err().message().contains(&ContractError::InvalidJson.message()));
    }
}

#[test]
fn integration_submit_data_fails_on_inactive_sensor() {
    let mut c = registry("admin");
    c.submit_sensor(&ctx("bob"), &payload(r#"{ "foo": "bar" }"#)).unwrap();
    c.activate(&ctx("admin"), 1).unwrap();
    c.deactivate(&ctx("admin"), 1).unwrap();
    assert!(c.submit_data(&ctx("bob"), 1, &payload(r#"{ "temperature": 42 }"#)).is_err());
}

#[test]
fn integration_add_verifier() {
    let mut c = registry("admin");
    assert!(c.add_verifier(&ctx("admin"), "verifier1".to_string()).is_ok());
    assert!(c.is_verifier(&"verifier1".to_string()));
    let res = c.add_verifier(&ctx("intruder"), "verifier2".to_string());
    assert!(res.is_err());
    assert!(res.unwrap_err().message().contains(&ContractError::Unauthorized.message()));
}

#[test]
fn integration_verify_data_succeeds_for_registered_verifier() {
    let mut c = with_active_sensor("admin", "submitter");
    c.add_verifier(&ctx("admin"), "verifier".to_string()).unwrap();
    c.submit_data(&ctx("submitter"), 1, &payload(r#"{"temperature": 22, "location": "field"}"#))
        .unwrap();
    assert!(c.verify_data(&ctx("verifier"), 1).is_ok());
    let entry = c.get_data_entry(1).unwrap();
    assert!(entry.verified);
    assert_eq!(entry.verifier.unwrap(), "verifier");
}

#[test]
fn integration_verify_data_fails_for_unregistered_verifier() {
    let mut c = with_active_sensor("admin", "submitter");
    c.submit_data(&ctx("submitter"), 1, &payload(r#"{"temperature": 22, "location": "field"}"#))
        .unwrap();
    let res = c.verify_data(&ctx("not_a_verifier"), 1);
    assert!(res.is_err());
    assert!(res.unwrap_err().message().contains(&ContractError::Unauthorized.message()));
}

#[test]
fn integration_verify_data_fails_if_already_verified() {
    let mut c = with_active_sensor("admin", "submitter");
    c.add_verifier(&ctx("admin"), "verifier".to_string()).unwrap();
    c.submit_data(&ctx("submitter"), 1, &payload(r#"{"temperature": 22, "location": "field"}"#))
        .unwrap();
    c.verify_data(&ctx("verifier"), 1).unwrap();
    let res = c.verify_data(&ctx("verifier"), 1);
    assert!(res.is_err());
    assert!(res.unwrap_err().message().contains(&ContractError::AlreadyVerified.message()));
}

#[test]
fn integration_reward_submitter_succeeds_for_verified_entry() {
    let mut c = with_active_sensor("admin", "submitter");
    c.add_verifier(&ctx("admin"), "verifier".to_string()).unwrap();
    c.submit_data(&ctx("submitter"), 1, &payload(r#"{"observation": "species A", "count": 5}"#))
        .unwrap();
    c.verify_data(&ctx("verifier"), 1).unwrap();
    let res = c.reward_submitter(&ctx_paying("admin", REWARD_AMOUNT, DEFAULT_DENOM), 1);
    assert!(res.is_ok());
    assert!(c.get_data_entry(1).unwrap().rewarded);
    let res = res.unwrap();
    assert!(has_attr(&res, "action", "reward_submitter"));
    assert_eq!(res.messages.len(), 1);
    assert_eq!(res.messages[0].to_address, "submitter");
    assert_eq!(res.messages[0].amount, REWARD_AMOUNT);
    assert_eq!(res.messages[0].denom, DEFAULT_DENOM);
}

#[test]
fn integration_reward_submitter_fails_if_not_verified() {
    let mut c = with_active_sensor("admin", "submitter");
    c.submit_data(&ctx("submitter"), 1, &payload(r#"{"observation": "species B", "count": 3}"#))
        .unwrap();
    let res = c.reward_submitter(&ctx("admin"), 1);
    assert!(res.is_err());
    assert!(res.unwrap_err().message().contains(&ContractError::NotVerified.message()));
}

#[test]
fn integration_reward_submitter_fails_on_wrong_denom() {
    let mut c = registry("admin");
    c.add_verifier(&ctx("admin"), "verifier".to_string()).unwrap();
    c.submit_sensor(&ctx("bob"), &payload(r#"{"name": "s"}"#)).unwrap();
    c.activate(&ctx("admin"), 1).unwrap();
    c.submit_data(&ctx("bob"), 1, &payload(r#"{"val": 1}"#)).unwrap();
    c.verify_data(&ctx("verifier"), 1).unwrap();
    assert!(c.reward_submitter(&ctx_paying("admin", REWARD_AMOUNT, "uwrong"), 1).is_err());
}

#[test]
fn integration_reward_submitter_fails_if_already_rewarded() {
    let mut c = with_active_sensor("admin", "submitter");
    c.add_verifier(&ctx("admin"), "verifier".to_string()).unwrap();
    c.submit_data(&ctx("submitter"), 1, &payload(r#"{"observation": "species C", "count": 1}"#))
        .unwrap();
    c.verify_data(&ctx("verifier"), 1).unwrap();
    let _ = c.reward_submitter(&ctx_paying("admin", REWARD_AMOUNT, DEFAULT_DENOM), 1);
    let res = c.reward_submitter(&ctx_paying("admin", REWARD_AMOUNT, DEFAULT_DENOM), 1);
    assert!(res.is_err());
    assert!(res.unwrap_err().message().contains(&ContractError::AlreadyRewarded.message()));
}

#[test]
fn integration_get_sensor_returns_expected_sensor() {
    let mut c = registry("admin");
    let data = value(r#"{"name": "field", "location": "field"}"#);
    assert!(c.submit_sensor(&ctx("submitter"), &JsonPayload::from_value(&data)).is_ok());
    assert!(c.activate(&ctx("admin"), 1).is_ok());
    let s = c.get_sensor(1).unwrap();
    assert_eq!(s.id, 1);
    assert_eq!(s.owner, "submitter");
    assert_eq!(s.data_str, data.to_string());
    assert_eq!(s.status.label(), "Active");
}

#[test]
fn integration_get_data_entry_returns_correct_entry() {
    let mut c = with_active_sensor("admin", "submitter");
    c.add_verifier(&ctx("admin"), "verifier".to_string()).unwrap();
    let data = value(r#"{"observation": "species A", "count": 5}"#);
    c.submit_data(&ctx("submitter"), 1, &JsonPayload::from_value(&data)).unwrap();
    c.verify_data(&ctx("verifier"), 1).unwrap();
    let entry = c.get_data_entry(1).unwrap();
    assert_eq!(entry.id, 1);
    assert_eq!(entry.data_str, data.to_string());
    assert_eq!(entry.submitter, "submitter");
    assert!(entry.verified);
    assert_eq!(entry.verifier, Some("verifier".to_string()));
    assert!(!entry.rewarded);
}

fn three_sensors() -> (CitizenScienceRegistry, Vec<Value>) {
    let mut c = registry("admin");
    let jsons = vec![
        value(r#"{ "name": "sensor1", "location": "loc1" }"#),
        value(r#"{ "name": "sensor2", "location": "loc2" }"#),
        value(r#"{ "name": "sensor3", "location": "loc3" }"#),
    ];
    for j in &jsons {
        assert!(c.submit_sensor(&ctx("submitter"), &JsonPayload::from_value(j)).is_ok());
    }
    (c, jsons)
}

#[test]
fn integration_list_sensors_returns_expected_range() {
    let (c, jsons) = three_sensors();
    let sensors = c.list_sensors(None, Some(10), None, None);
    assert_eq!(sensors.len(), 3);
    for (i, s) in sensors.iter().enumerate() {
        assert_eq!(s.id, (i + 1) as u64);
        assert_eq!(s.owner, "submitter");
        assert_eq!(s.data_str, jsons[i].to_string());
    }
    let page = c.list_sensors(Some(1), Some(1), None, None);
    assert_eq!(page.len(), 1);
    assert_eq!(page[0].id, 2);
    assert_eq!(page[0].data_str, jsons[1].to_string());
}

#[test]
fn integration_list_sensors_returns_correct_range() {
    let (c, jsons) = three_sensors();
    let sensors = c.list_sensors(None, Some(10), None, None);
    assert_eq!(sensors.len(), 3);
    for (i, s) in sensors.iter().enumerate() {
        assert_eq!(s.id, (i + 1) as u64);
        assert_eq!(s.owner, "submitter");
        assert_eq!(s.data_str, jsons[i].to_string());
    }
    let page = c.list_sensors(Some(1), Some(1), None, None);
    assert_eq!(page.len(), 1);
    assert_eq!(page[0].id, 2);
    assert_eq!(page[0].data_str, jsons[1].to_string());
}

#[test]
fn integration_list_sensors_pagination_edge_cases() {
    let mut c = registry("admin");
    for i in 0..5 {
        let text = format!(r#"{{ "name": "Sensor{i}", "location": "Loc{i}" }}"#);
        c.submit_sensor(&ctx("submitter"), &payload(&text)).unwrap();
    }
    assert!(c.list_sensors(None, Some(0), None, None).is_empty());
    assert!(c.list_sensors(Some(5), Some(10), None, None).is_empty());
    let result = c.list_sensors(Some(2), Some(10), None, None);
    assert_eq!(result.len(), 3);
    assert_eq!(result[0].id, 3);
    assert_eq!(result[2].id, 5);
}

#[test]
fn integration_list_data_entries_returns_correct_range() {
    let mut c = with_active_sensor("admin", "submitter");
    let texts = [
        r#"{"species": "A", "count": 1}"#,
        r#"{"species": "B", "count": 2}"#,
        r#"{"species": "C", "count": 3}"#,
    ];
    for t in &texts {
        c.submit_data(&ctx("submitter"), 1, &payload(t)).unwrap();
    }
    let entries = c.list_data_entries(None, Some(10), None, None);
    assert_eq!(entries.len(), 3);
    for (i, e) in entries.iter().enumerate() {
        let expected = serde_json::to_string(&value(texts[i])).unwrap();
        assert_eq!(e.id, (i + 1) as u64);
        assert_eq!(e.data_str, expected);
        assert_eq!(e.submitter, "submitter");
    }
    let page = c.list_data_entries(Some(1), Some(1), None, None);
    assert_eq!(page.len(), 1);
    assert_eq!(page[0].id, 2);
    assert_eq!(page[0].data_str, serde_json::to_string(&value(texts[1])).unwrap());
}

#[test]
fn integration_list_data_entries_pagination_edge_cases() {
    let mut c = with_active_sensor("admin", "submitter");
    for i in 0..10 {
        let text = format!(r#"{{ "species": "Species{i}", "count": {i} }}"#);
        c.submit_data(&ctx("submitter"), 1, &payload(&text)).unwrap();
    }
    assert!(c.list_data_entries(None, Some(0), None, None).is_empty());
    assert!(c.list_data_entries(Some(10), Some(10), None, None).is_empty());
    assert_eq!(c.list_data_entries(Some(5), Some(10), None, None).len(), 5);
}

#[test]
fn integration_list_data_entries_respects_max_limit_30() {
    let mut c = registry("admin");
    c.submit_sensor(&ctx("bob"), &payload(r#"{ "foo": "bar" }"#)).unwrap();
    c.activate(&ctx("admin"), 1).unwrap();
    for i in 0..35 {
        c.submit_data(&ctx("bob"), 1, &payload(&format!(r#"{{ "data": {i} }}"#))).unwrap();
    }
    assert_eq!(c.list_data_entries(None, Some(30), None, None).len(), 30);
}

#[test]
fn integration_data_entries_track_multiple_submitters() {
    let mut c = with_active_sensor("admin", "alice");
    c.submit_data(&ctx("alice"), 1, &payload(r#"{ "species": "A" }"#)).unwrap();
    c.submit_data(&ctx("bob"), 1, &payload(r#"{ "species": "B" }"#)).unwrap();
    let entries = c.list_data_entries(None, Some(10), None, None);
    assert_eq!(entries.len(), 2);
    assert_eq!(entries[0].submitter, "alice");
    assert_eq!(entries[1].submitter, "bob");
}

#[test]
fn integration_list_verifiers_returns_all_verifiers() {
    let mut c = registry("admin");
    c.add_verifier(&ctx("admin"), "verifier1".to_string()).unwrap();
    c.add_verifier(&ctx("admin"), "verifier2".to_string()).unwrap();
    let verifiers = c.list_verifiers();
    assert_eq!(verifiers.len(), 2);
    assert!(verifiers.contains(&"verifier1".to_string()));
    assert!(verifiers.contains(&"verifier2".to_string()));
}

#[test]
fn integration_list_verifiers_works() {
    let mut c = registry("admin");
    assert!(c.list_verifiers().is_empty());
    c.add_verifier(&ctx("admin"), "ver1".to_string()).unwrap();
    c.add_verifier(&ctx("admin"), "ver2".to_string()).unwrap();
    let verifiers = c.list_verifiers();
    assert_eq!(verifiers.len(), 2);
    assert!(verifiers.contains(&"ver1".to_string()));
    assert!(verifiers.contains(&"ver2".to_string()));
}

#[test]
fn integration_is_verifier_returns_correct_status() {
    let mut c = registry("admin");
    assert!(!c.is_verifier(&"verifier".to_string()));
    c.add_verifier(&ctx("admin"), "verifier".to_string()).unwrap();
    assert!(c.is_verifier(&"verifier".to_string()));
    assert!(!c.is_verifier(&"someone_else".to_string()));
}

#[test]
fn integration_is_verifier_returns_false_for_unknown() {
    let c = registry("admin");
    assert!(!c.is_verifier(&"ghost".to_string()));
}

