//! Agents registered with the citizen science registry: drones and
//! verifiers operated by an address.
use vstd::prelude::*;
use serde_json::Value;
use crate::json::{json_text, value_to_string};
use crate::text::{is_blank, str_is_blank};

verus! {

/// What an agent is.
#[derive(Debug, Clone, Copy, PartialEq, Eq, Structural)]
pub enum AgentType {
    Drone,
    Verifier,
}

/// A registered agent.
#[derive(Debug, Clone, PartialEq, Eq)]
pub struct Agent {
    pub id: u64,
    pub name: String,
    pub agent_type: AgentType,
    pub operator: String,
    pub pubkey: String,
    pub policy_json: String,
    pub registered_at: u64,
}

/// An agent name is valid when it is not blank.
pub fn validate_agent_name(name: &str) -> (r: bool)
    ensures
        r == !is_blank(name@),
{
    !str_is_blank(name)
}

/// A public key is valid when it is not blank.
pub fn validate_pubkey(pubkey: &str) -> (r: bool)
    ensures
        r == !is_blank(pubkey@),
{
    !str_is_blank(pubkey)
}

/// The compact JSON text of a policy.
pub fn serialize_policy(policy: &Value) -> (r: Result<String, ()>)
    ensures
        r matches Ok(t) && t@ == json_text(*policy),
{
    match value_to_string(policy) {
        Ok(s) => Ok(s),
        Err(_) => Err(()),
    }
}

} // verus!
