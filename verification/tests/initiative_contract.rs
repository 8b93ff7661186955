use aquachain::chain::{Coin, Context, Response};
use aquachain::initiative::{
    ContractError, Project, ProjectStatus, WaterWellInitiativeContract, DEFAULT_DENOM,
};
use aquachain::json::JsonPayload;
use serde_json::Value;

const NOW: u64 = 1_571_797_419;

fn ctx(sender: &str) -> Context {
    Context { sender: sender.to_string(), funds: vec![], block_time: NOW }
}

fn pay(sender: &str, amount: u128) -> Context {
    pay_in(sender, amount, DEFAULT_DENOM)
}

fn pay_in(sender: &str, amount: u128, denom: &str) -> Context {
    Context {
        sender: sender.to_string(),
        funds: vec![Coin { denom: denom.to_string(), amount }],
        block_time: NOW,
    }
}

/// A project description stamped with the current time, so that each call
/// gives a new text.
fn valid_json_str() -> String {
    let now = chrono::Utc::now().to_rfc3339();
    let text = format!(
        r#"{{"name": "Clean Water for Village A", "location": "3.456, -76.532", "details": {{"description": "Installation of a solar-powered water pump to serve the local community.", "images": ["https://example.com/image1.jpg", "https://example.com/image2.jpg"], "beneficiaries": 300, "timeline": "2025-07 to 2025-12", "created_at": "{now}"}}}}"#
    );
    let v: Value = serde_json::from_str(&text).unwrap();
    v.to_string()
}

fn project_data() -> JsonPayload {
    let v: Value = serde_json::from_str(&valid_json_str()).unwrap();
    JsonPayload::from_value(&v)
}

fn generic(e: ContractError) -> String {
    format!("Generic error: {}", e.message())
}

fn contract(admin: &str) -> WaterWellInitiativeContract {
    let mut c = WaterWellInitiativeContract::new();
    c.instantiate(&ctx(admin), Some(DEFAULT_DENOM.to_string()));
    c
}

/// Instantiated by "admin", with project 1 of the given goal created by "owner".
fn with_project(goal: u128) -> WaterWellInitiativeContract {
    let mut c = contract("admin");
    c.create_project(&ctx("owner"), goal, &project_data()).unwrap();
    c
}

/// As `with_project`, with the project validated.
fn fundraising(goal: u128) -> WaterWellInitiativeContract {
    let mut c = with_project(goal);
    c.validate(&ctx("admin"), 1).unwrap();
    c
}

fn stored(id: u64, owner: &str, goal: u128, donated: u128, status: ProjectStatus) -> Project {
    Project {
        id,
        owner: owner.to_string(),
        goal,
        total_donated: donated,
        status,
        data_str: valid_json_str(),
    }
}

fn attr<'a>(res: &'a Response, key: &str) -> Option<&'a str> {
    res.attributes.iter().find(|a| a.key == key).map(|a| a.value.as_str())
}

fn has_attr(res: &Response, key: &str, value: &str) -> bool {
    res.attributes.iter().any(|a| a.key == key && a.value == value)
}

#[test]
fn initiative_contract_instantiate() {
    let c = contract("admin");
    assert_eq!(c.admin(), Some("admin".to_string()));
    assert_eq!(c.next_project_id(), Some(1));
}

#[test]
fn instantiate_defaults_to_default_denom_if_not_provided() {
    let mut c = WaterWellInitiativeContract::new();
    c.instantiate(&ctx("admin"), None);
    assert_eq!(c.denom(), Some(DEFAULT_DENOM.to_string()));
    assert_eq!(c.admin(), Some("admin".to_string()));
    assert_eq!(c.next_project_id(), Some(1));
}

#[test]
fn initiative_contract_query_nonexistent_project() {
    let c = contract("admin");
    assert_eq!(c.get_project(1).unwrap_err(), ContractError::NotFound);
    assert_eq!(c.get_project(1).unwrap_err(), ContractError::NotFound);
}

#[test]
fn initiative_contract_query_existing_project() {
    let mut c = contract("admin");
    c.create_project(&pay("owner", 0), 1000, &project_data()).unwrap();
    let p = c.get_project(1).unwrap();
    assert_eq!(p.id, 1);
    assert_eq!(p.owner, "owner");
    assert_eq!(p.goal, 1000);
    assert!(p.status != ProjectStatus::Fundraising);
    assert_eq!(p.total_donated, 0);
}

#[test]
fn create_project() {
    let mut c = contract("admin");
    c.create_project(&pay("owner", 0), 1000, &project_data()).unwrap();
    let p = c.get_project(1).unwrap();
    assert_eq!(p.id, 1);
    assert_eq!(p.owner, "owner");
    assert_eq!(p.goal, 1000);
    assert!(p.status != ProjectStatus::Fundraising);
    assert_eq!(p.total_donated, 0);
}

#[test]
fn get_project() {
    let mut c = contract("admin");
    c.create_project(&pay("owner", 0), 1000, &project_data()).unwrap();
    let p = c.get_project(1).unwrap();
    assert_eq!(p.id, 1);
    assert_eq!(p.owner, "owner");
    assert_eq!(p.goal, 1000);
    assert_eq!(p.total_donated, 0);
    assert_eq!(p.status, ProjectStatus::Proposed);
}

#[test]
fn initiative_contract_create_project_fail_zero_goal() {
    let mut c = contract("admin");
    let err = c.create_project(&ctx("owner"), 0, &project_data()).unwrap_err();
    assert_eq!(generic(err), "Generic error: Goal must be greater than zero");
}

#[test]
fn create_multiple_projects_increments_id() {
    let mut c = contract("admin");
    c.create_project(&ctx("owner"), 1000, &project_data()).unwrap();
    c.create_project(&ctx("owner"), 2000, &project_data()).unwrap();
    let p = c.get_project(2).unwrap();
    assert_eq!(p.id, 2);
    assert_eq!(p.goal, 2000);
}

#[test]
fn create_project_rejects_invalid_json_value() {
    let mut c = contract("admin");
    for invalid in ["{}", "[]", "\"\""] {
        let v: Value = serde_json::from_str(invalid).unwrap();
        let err = c.create_project(&ctx("owner"), 1000, &JsonPayload::from_value(&v)).unwrap_err();
        assert!(err.message().contains("Data is not valid json"));
    }
}

#[test]
fn create_project_duplicate_hash_rejected() {
    let mut c = contract("admin");
    let data = project_data();
    c.create_project(&ctx("owner"), 1000, &data).unwrap();
    let err = c.create_project(&ctx("owner"), 1000, &data).unwrap_err();
    assert!(err.message().contains("Duplicate"));
}

#[test]
fn validate_project_success() {
    let mut c = contract("admin");
    c.create_project(&pay("owner", 0), 1000, &project_data()).unwrap();
    let res = c.validate(&ctx("admin"), 1).unwrap();
    assert_eq!(attr(&res, "action"), Some("validate"));
    assert_eq!(attr(&res, "admin"), Some("admin"));
    assert_eq!(attr(&res, "owner"), Some("owner"));
    assert_eq!(attr(&res, "project_id"), Some("1"));
    assert!(c.get_project(1).unwrap().status == ProjectStatus::Fundraising);
}

#[test]
fn validate_unauthorized_fails() {
    let mut c = contract("admin");
    c.create_project(&pay("owner", 0), 500, &project_data()).unwrap();
    let err = c.validate(&ctx("owner"), 1).unwrap_err();
    assert_eq!(generic(err), "Generic error: Unauthorized");
}

#[test]
fn validate_fails_already_validated() {
    let mut c = fundraising(1000);
    let err = c.validate(&ctx("admin"), 1).unwrap_err();
    assert_eq!(generic(err), "Generic error: Project is already validated");
}

#[test]
fn cancel_project_success_proposed() {
    let mut c = contract("admin");
    c.create_project(&pay("owner", 0), 1000, &project_data()).unwrap();
    let res = c.cancel(&ctx("owner"), 1).unwrap();
    assert_eq!(attr(&res, "action"), Some("cancel"));
    assert_eq!(attr(&res, "status"), Some("Cancelled"));
}

#[test]
fn cancel_project_success_fundraising() {
    let mut c = fundraising(1000);
    let res = c.cancel(&ctx("admin"), 1).unwrap();
    assert_eq!(attr(&res, "action"), Some("cancel"));
    assert_eq!(attr(&res, "status"), Some("Cancelled"));
}

#[test]
fn cancel_project_by_owner_fails_in_fundraising() {
    let mut c = fundraising(1000);
    let err = c.cancel(&ctx("owner"), 1).unwrap_err();
    assert_eq!(generic(err), "Generic error: Unauthorized");
}

#[test]
fn cancel_project_fails_unauthorized_user() {
    let mut c = with_project(1000);
    let err = c.cancel(&ctx("stranger"), 1).unwrap_err();
    assert_eq!(generic(err), "Generic error: Unauthorized");
}

#[test]
fn cancel_project_fails_if_already_cancelled() {
    let mut c = with_project(1000);
    c.cancel(&ctx("admin"), 1).unwrap();
    let err = c.cancel(&ctx("admin"), 1).unwrap_err();
    assert_eq!(generic(err), "Generic error: Project is already cancelled");
}

#[test]
fn cancel_project_fails_if_funded_or_completed_cheat() {
    let mut c = contract("admin");
    let funded = stored(1, "admin", 1000, 1000, ProjectStatus::Funded);
    c.store_project(1, funded.clone());
    let err = c.cancel(&ctx("admin"), 1).unwrap_err();
    assert_eq!(
        generic(err),
        "Generic error: Project cannot be cancelled in its current status"
    );
    let mut completed = funded.clone();
    completed.status = ProjectStatus::Completed;
    c.store_project(1, completed);
    let err = c.cancel(&ctx("admin"), 1).unwrap_err();
    assert_eq!(
        generic(err),
        "Generic error: Project cannot be cancelled in its current status"
    );
}

#[test]
fn cancel_fails_nonexistent_project() {
    let mut c = contract("admin");
    let err = c.cancel(&ctx("admin"), 999).unwrap_err();
    assert!(err.message().contains("not found"));
}

#[test]
fn initiative_contract_donate_success() {
    let mut c = fundraising(1000);
    let res = c.donate(&pay("donor", 500), 1).unwrap();
    assert!(has_attr(&res, "action", "donate"));
    assert!(has_attr(&res, "project_id", "1"));
    assert!(has_attr(&res, "donor", "donor"));
    assert!(has_attr(&res, "amount", "500"));
    let p = c.get_project(1).unwrap();
    assert_eq!(p.total_donated, 500);
    assert!(p.status == ProjectStatus::Fundraising);
}

#[test]
fn donate_fails_wrong_denom() {
    let mut c = fundraising(1000);
    let err = c.donate(&pay_in("donor", 500, "uatom"), 1).unwrap_err();
    assert_eq!(generic(err), "Generic error: Unvalid donation");
}

#[test]
fn donate_not_validated_fails() {
    let mut c = with_project(1000);
    let err = c.donate(&pay("donor", 100), 1).unwrap_err();
    assert_eq!(generic(err), "Generic error: Project is not validated");
    let p = c.get_project(1).unwrap();
    assert_eq!(p.total_donated, 0);
    assert!(p.status == ProjectStatus::Proposed);
}

#[test]
fn initiative_contract_donate_no_funds_fails() {
    let mut c = fundraising(1000);
    let err = c.donate(&ctx("donor"), 1).unwrap_err();
    assert_eq!(generic(err), "Generic error: Unvalid donation");
    let p = c.get_project(1).unwrap();
    assert_eq!(p.total_donated, 0);
    assert!(p.status == ProjectStatus::Fundraising);
}

#[test]
fn initiative_contract_donate_exceed_goal_fails() {
    let mut c = fundraising(1000);
    let err = c.donate(&pay("donor", 1200), 1).unwrap_err();
    assert_eq!(generic(err), "Generic error: Donation exceeds goal");
    let p = c.get_project(1).unwrap();
    assert_eq!(p.total_donated, 0);
    assert!(p.status == ProjectStatus::Fundraising);
}

#[test]
fn initiative_contract_donate_multiple_partial() {
    let mut c = fundraising(1000);
    c.donate(&pay("donor1", 300), 1).unwrap();
    c.donate(&pay("donor2", 400), 1).unwrap();
    let p = c.get_project(1).unwrap();
    assert_eq!(p.total_donated, 700);
    assert!(p.status == ProjectStatus::Fundraising);
}

#[test]
fn initiative_contract_donate_exact_difference() {
    let mut c = fundraising(1000);
    c.donate(&pay("donor1", 600), 1).unwrap();
    let res = c.donate(&pay("donor2", 400), 1).unwrap();
    assert!(has_attr(&res, "action", "donate"));
    let p = c.get_project(1).unwrap();
    assert_eq!(p.total_donated, p.goal);
    assert!(p.status == ProjectStatus::Funded);
}

#[test]
fn donate_fails_after_goal_met() {
    let mut c = fundraising(1000);
    c.donate(&pay("donor", 1000), 1).unwrap();
    let err = c.donate(&pay("donor", 1000), 1).unwrap_err();
    assert_eq!(generic(err), "Generic error: Project is already funded");
}

#[test]
fn donate_after_completion_fails() {
    let mut c = fundraising(1000);
    c.donate(&pay("donor", 1000), 1).unwrap();
    c.unlock(&ctx("admin"), 1).unwrap();
    c.disburse(&ctx("owner"), 1).unwrap();
    let err = c.donate(&pay("donor", 100), 1).unwrap_err();
    assert_eq!(generic(err), "Generic error: Project is already disbursed and completed");
    let p = c.get_project(1).unwrap();
    assert_eq!(p.status, ProjectStatus::Completed);
    assert_eq!(p.total_donated, 1000);
}

#[test]
fn refund_success() {
    let mut c = contract("admin");
    c.store_project(1, stored(1, "owner", 1000, 500, ProjectStatus::Cancelled));
    c.store_donation(1, "donor".to_string(), 300);
    let res = c.refund(&ctx("donor"), 1).unwrap();
    assert_eq!(attr(&res, "action"), Some("refund"));
    assert_eq!(attr(&res, "project_id"), Some("1"));
    assert_eq!(attr(&res, "refunded_to"), Some("donor"));
    assert_eq!(attr(&res, "amount"), Some("300"));
    assert_eq!(attr(&res, "status"), Some("Cancelled"));
    assert_eq!(c.donation(1, &"donor".to_string()), 0);
}

#[test]
fn refund_fail_not_cancelled() {
    let mut c = contract("admin");
    c.store_project(1, stored(1, "admin", 1000, 300, ProjectStatus::Fundraising));
    c.store_donation(1, "donor".to_string(), 300);
    let err = c.refund(&ctx("donor"), 1).unwrap_err();
    assert!(err.message().contains(&ContractError::NotRefundable.message()));
}

#[test]
fn refund_fail_no_donation() {
    let mut c = contract("admin");
    c.store_project(1, stored(1, "admin", 1000, 0, ProjectStatus::Cancelled));
    let err = c.refund(&ctx("donor"), 1).unwrap_err();
    assert!(err.message().contains(&ContractError::NoRefundAvailable.message()));
}

#[test]
fn unlock_success() {
    let mut c = fundraising(1000);
    c.donate(&pay("donor", 1000), 1).unwrap();
    let res = c.unlock(&ctx("admin"), 1).unwrap();
    assert!(has_attr(&res, "action", "unlock"));
    assert_eq!(c.get_project(1).unwrap().status, ProjectStatus::Disbursable);
}

#[test]
fn unlock_fail_not_admin() {
    let mut c = with_project(1000);
    let err = c.unlock(&ctx("owner"), 1).unwrap_err();
    assert_eq!(generic(err), "Generic error: Unauthorized");
}

#[test]
fn unlock_fail_goal_not_met() {
    let mut c = fundraising(1000);
    c.donate(&pay("donor", 500), 1).unwrap();
    let err = c.unlock(&ctx("admin"), 1).unwrap_err();
    assert_eq!(generic(err), "Generic error: Goal not reached yet");
}

#[test]
fn unlock_fail_already_disbursable() {
    let mut c = fundraising(1000);
    c.donate(&pay("donor", 1000), 1).unwrap();
    c.unlock(&ctx("admin"), 1).unwrap();
    let err = c.unlock(&ctx("admin"), 1).unwrap_err();
    assert_eq!(generic(err), "Generic error: Project is already marked as disbursable");
}

#[test]
fn unlock_fail_already_completed() {
    let mut c = fundraising(1000);
    c.donate(&pay("donor", 1000), 1).unwrap();
    c.unlock(&ctx("admin"), 1).unwrap();
    c.disburse(&ctx("admin"), 1).unwrap();
    let err = c.unlock(&ctx("admin"), 1).unwrap_err();
    assert_eq!(generic(err), "Generic error: Project is already disbursed and completed");
}

#[test]
fn disburse_exact_goal_not_funded() {
    let mut c = contract("admin");
    c.store_project(1, stored(1, "admin", 1000, 1000, ProjectStatus::Fundraising));
    let err = c.disburse(&ctx("admin"), 1).unwrap_err();
    assert_eq!(generic(err), "Generic error: Project is not yet ready for disbursal");
    assert!(c.get_project(1).unwrap().status == ProjectStatus::Fundraising);
}

#[test]
fn disburse_fails_before_unlock() {
    let mut c = fundraising(500);
    c.donate(&pay("owner", 500), 1).unwrap();
    let err = c.disburse(&ctx("owner"), 1).unwrap_err();
    assert_eq!(generic(err), "Generic error: Project is not yet ready for disbursal");
}

#[test]
fn disburse_admin_success() {
    let mut c = fundraising(1000);
    c.donate(&pay("donor", 1000), 1).unwrap();
    assert!(c.get_project(1).unwrap().status == ProjectStatus::Funded);
    c.unlock(&ctx("admin"), 1).unwrap();
    let res = c.disburse(&ctx("admin"), 1).unwrap();
    assert!(has_attr(&res, "action", "disburse"));
    assert!(has_attr(&res, "project_id", "1"));
    assert!(has_attr(&res, "sender", "admin"));
    assert!(has_attr(&res, "recipient", "owner"));
    assert!(has_attr(&res, "amount", "1000"));
    assert_eq!(res.messages.len(), 1);
    assert!(c.get_project(1).unwrap().status == ProjectStatus::Completed);
}

#[test]
fn disburse_owner_success() {
    let mut c = fundraising(1000);
    c.donate(&pay("donor", 1000), 1).unwrap();
    assert!(c.get_project(1).unwrap().status == ProjectStatus::Funded);
    c.unlock(&ctx("admin"), 1).unwrap();
    let res = c.disburse(&ctx("owner"), 1).unwrap();
    assert!(has_attr(&res, "action", "disburse"));
    assert!(has_attr(&res, "project_id", "1"));
    assert!(has_attr(&res, "sender", "owner"));
    assert!(has_attr(&res, "recipient", "owner"));
    assert!(has_attr(&res, "amount", "1000"));
    assert_eq!(res.messages.len(), 1);
    assert!(c.get_project(1).unwrap().status == ProjectStatus::Completed);
}

#[test]
fn disburse_fail_not_validated() {
    let mut c = with_project(1000);
    let err = c.disburse(&ctx("owner"), 1).unwrap_err();
    assert_eq!(generic(err), "Generic error: Project is not yet ready for disbursal");
    assert!(c.get_project(1).unwrap().status == ProjectStatus::Proposed);
}

#[test]
fn initiative_contract_disburse_fail_goal_not_reached() {
    let mut c = fundraising(1000);
    c.donate(&pay("donor", 500), 1).unwrap();
    let err = c.unlock(&ctx("admin"), 1).unwrap_err();
    assert_eq!(generic(err), "Generic error: Goal not reached yet");
    let err = c.disburse(&ctx("owner"), 1).unwrap_err();
    assert_eq!(generic(err), "Generic error: Project is not yet ready for disbursal");
    assert!(c.get_project(1).unwrap().status == ProjectStatus::Fundraising);
}

#[test]
fn disburse_fail_already_completed() {
    let mut c = fundraising(1000);
    c.donate(&pay("donor", 1000), 1).unwrap();
    c.unlock(&ctx("admin"), 1).unwrap();
    c.disburse(&ctx("owner"), 1).unwrap();
    assert!(c.get_project(1).unwrap().status == ProjectStatus::Completed);
    let err = c.disburse(&ctx("owner"), 1).unwrap_err();
    assert_eq!(generic(err), "Generic error: Project is already disbursed and completed");
    assert!(c.get_project(1).unwrap().status == ProjectStatus::Completed);
}

#[test]
fn disburse_fail_already_completed_from_state() {
    let mut c = contract("admin");
    c.store_project(1, stored(1, "owner", 1000, 1000, ProjectStatus::Disbursable));
    assert!(c.disburse(&ctx("owner"), 1).is_ok());
    assert_eq!(c.get_project(1).unwrap().status, ProjectStatus::Completed);
    let err = c.disburse(&ctx("owner"), 1).unwrap_err();
    assert!(err.message().contains("Project is already disbursed and completed"));
}

#[test]
fn initiative_contract_disburse_fail_not_owner() {
    let mut c = fundraising(1000);
    c.donate(&pay("donor", 1000), 1).unwrap();
    c.unlock(&ctx("admin"), 1).unwrap();
    let err = c.disburse(&ctx("stranger"), 1).unwrap_err();
    assert!(err.message().contains("Unauthorized"));
    assert!(c.get_project(1).unwrap().status == ProjectStatus::Disbursable);
}

#[test]
fn list_projects_empty() {
    let c = WaterWellInitiativeContract::new();
    assert_eq!(c.list_projects(None, None).len(), 0);
}

#[test]
fn list_projects_multiple() {
    let mut c = contract("admin");
    c.store_project(1, stored(1, "admin", 1000, 100, ProjectStatus::default()));
    c.store_project(2, stored(2, "admin", 2000, 500, ProjectStatus::default()));
    let projects = c.list_projects(None, None);
    assert_eq!(projects.len(), 2);
    assert_eq!(projects[0].id, 1);
    assert_eq!(projects[1].id, 2);
}

#[test]
fn list_projects_pagination() {
    let mut c = contract("admin");
    for i in 0u64..5 {
        let id = i + 1;
        c.store_project(id, stored(id, "owner", 1000 + i as u128 * 100, 0, ProjectStatus::default()));
    }
    let first = c.list_projects(Some(2), None);
    assert_eq!(first.len(), 2);
    assert_eq!(first[0].id, 1);
    assert_eq!(first[1].id, 2);
    let second = c.list_projects(Some(2), Some(2));
    assert_eq!(second.len(), 2);
    assert_eq!(second[0].id, 3);
    assert_eq!(second[1].id, 4);
    let third = c.list_projects(Some(2), Some(4));
    assert_eq!(third.len(), 1);
    assert_eq!(third[0].id, 5);
}

#[test]
fn list_projects_default_limit() {
    let mut c = contract("admin");
    for i in 1u64..=15 {
        c.store_project(i, stored(i, "owner", 1000, 0, ProjectStatus::default()));
    }
    assert_eq!(c.list_projects(None, None).len(), 10);
}

#[test]
fn list_projects_start_after_last_id_returns_empty() {
    let mut c = contract("admin");
    for i in 1u64..=3 {
        c.store_project(i, stored(i, "owner", 1000, 0, ProjectStatus::default()));
    }
    assert_eq!(c.list_projects(Some(10), Some(3)).len(), 0);
}

#[test]
fn list_projects_limit_caps_at_30() {
    let mut c = contract("admin");
    for i in 1u64..=50 {
        c.store_project(i, stored(i, "owner", 1000, 0, ProjectStatus::default()));
    }
    assert_eq!(c.list_projects(Some(999), None).len(), 30);
}

fn count_of(counts: &[(String, u32)], status: ProjectStatus) -> Option<u32> {
    let key = status.label();
    counts.iter().find(|(k, _)| *k == key).map(|(_, n)| *n)
}

#[test]
fn get_project_status_counts_reflects_all_statuses() {
    let mut c = contract("admin");
    for _ in 0..8 {
        c.create_project(&pay("owner", 0), 1000, &project_data()).unwrap();
    }
    for id in 3..=4 {
        c.validate(&ctx("admin"), id).unwrap();
    }
    for id in 5..=6 {
        c.validate(&ctx("admin"), id).unwrap();
        c.donate(&pay("owner", 1000), id).unwrap();
    }
    c.validate(&ctx("admin"), 7).unwrap();
    c.donate(&pay("owner", 1000), 7).unwrap();
    c.unlock(&ctx("admin"), 7).unwrap();
    c.validate(&ctx("admin"), 8).unwrap();
    c.donate(&pay("owner", 1000), 8).unwrap();
    c.unlock(&ctx("admin"), 8).unwrap();
    c.disburse(&ctx("owner"), 8).unwrap();
    let counts = c.get_project_status_counts();
    assert_eq!(count_of(&counts, ProjectStatus::Proposed), Some(2));
    assert_eq!(count_of(&counts, ProjectStatus::Fundraising), Some(2));
    assert_eq!(count_of(&counts, ProjectStatus::Funded), Some(2));
    assert_eq!(count_of(&counts, ProjectStatus::Disbursable), Some(1));
    assert_eq!(count_of(&counts, ProjectStatus::Completed), Some(1));
    assert_eq!(count_of(&counts, ProjectStatus::Cancelled), Some(0));
}

#[test]
fn get_projects_by_status() {
    let mut c = contract("admin");
    for _ in 0..3 {
        c.create_project(&pay("owner", 0), 1000, &project_data()).unwrap();
    }
    for id in 1..=2 {
        c.validate(&ctx("admin"), id).unwrap();
    }
    let proposed = c.get_projects_by_status(ProjectStatus::Proposed, None, None);
    assert_eq!(proposed.len(), 1);
    assert_eq!(proposed[0].status, ProjectStatus::Proposed);
    let fundraising = c.get_projects_by_status(ProjectStatus::Fundraising, None, None);
    assert_eq!(fundraising.len(), 2);
    for p in fundraising.iter() {
        assert_eq!(p.status, ProjectStatus::Fundraising);
    }
    assert_eq!(c.get_projects_by_status(ProjectStatus::Funded, None, None).len(), 0);
}

#[test]
fn get_projects_by_status_pagination_with_loop() {
    let mut c = contract("admin");
    for i in 1u64..=50 {
        c.store_project(i, stored(i, "owner", 1000, 0, ProjectStatus::default()));
    }
    let page_1 = c.get_projects_by_status(ProjectStatus::Proposed, Some(10), None);
    assert_eq!(page_1.len(), 10);
    assert_eq!(page_1[0].id, 1);
    assert_eq!(page_1[9].id, 10);
    let page_2 = c.get_projects_by_status(ProjectStatus::Proposed, Some(10), Some(10));
    assert_eq!(page_2.len(), 10);
    assert_eq!(page_2[0].id, 11);
    assert_eq!(page_2[9].id, 20);
    let last = c.get_projects_by_status(ProjectStatus::Proposed, Some(10), Some(49));
    assert_eq!(last.len(), 1);
    assert_eq!(last[0].id, 50);
}

#[test]
fn get_projects_by_status_pagination_skips_gaps_and_filters_by_status() {
    let mut c = contract("admin");
    for i in 1u64..=100 {
        let status = if i % 7 == 0 { ProjectStatus::Proposed } else { ProjectStatus::Cancelled };
        c.store_project(i, stored(i, "owner", 1000, 0, status));
    }
    let page = c.get_projects_by_status(ProjectStatus::Proposed, Some(10), Some(20));
    assert_eq!(page.len(), 10);
    assert_eq!(page[0].id, 21);
    assert_eq!(page[1].id, 28);
}

#[test]
fn get_projects_by_status_pagination_across_pages() {
    let mut c = contract("admin");
    for i in 1u64..=9 {
        let status = if i % 2 == 0 { ProjectStatus::Cancelled } else { ProjectStatus::Proposed };
        c.store_project(i, stored(i, "owner", 1000, 0, status));
    }
    let p1 = c.get_projects_by_status(ProjectStatus::Proposed, Some(2), None);
    assert_eq!(p1.len(), 2);
    assert_eq!(p1[0].id, 1);
    assert_eq!(p1[1].id, 3);
    let p2 = c.get_projects_by_status(ProjectStatus::Proposed, Some(2), Some(3));
    assert_eq!(p2.len(), 2);
    assert_eq!(p2[0].id, 5);
    assert_eq!(p2[1].id, 7);
    let p3 = c.get_projects_by_status(ProjectStatus::Proposed, Some(2), Some(7));
    assert_eq!(p3.len(), 1);
    assert_eq!(p3[0].id, 9);
}

#[test]
fn get_projects_by_status_default_limit_none() {
    let mut c = contract("admin");
    for i in 1u64..=30 {
        let status = if i <= 15 { ProjectStatus::Proposed } else { ProjectStatus::Cancelled };
        c.store_project(i, stored(i, "owner", 1000, 0, status));
    }
    let result = c.get_projects_by_status(ProjectStatus::Proposed, None, None);
    assert_eq!(result.len(), 10);
    assert_eq!(result[0].id, 1);
    assert_eq!(result[9].id, 10);
}

#[test]
fn methods_fail_on_cancelled_project() {
    let mut c = contract("admin");
    c.store_project(1, stored(1, "owner", 1000, 0, ProjectStatus::Cancelled));
    let err = c.validate(&ctx("admin"), 1).unwrap_err();
    assert!(err.message().contains("Project is cancelled"));
    let err = c.donate(&pay("owner", 1000), 1).unwrap_err();
    assert!(err.message().contains("Project is cancelled"));
    let err = c.unlock(&ctx("admin"), 1).unwrap_err();
    assert!(err.message().contains("Project is cancelled"));
    let err = c.disburse(&ctx("owner"), 1).unwrap_err();
    assert!(err.message().contains("Project is cancelled"));
}
