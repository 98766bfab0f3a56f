//! Records of the local agent that the catalog embeds.

use vstd::prelude::*;

verus! {

/// A health check as the agent holds it.
#[allow(non_snake_case)]
#[derive(Debug, Default, PartialEq, Eq)]
pub struct AgentCheck {
    pub Node: String,
    pub CheckID: String,
    pub Name: String,
    pub Status: String,
    pub Notes: String,
    pub Output: String,
    pub ServiceID: String,
    pub ServiceName: String,
}

/// A service as the agent holds it.
#[allow(non_snake_case)]
#[derive(Debug, Default, PartialEq, Eq)]
pub struct AgentService {
    pub ID: String,
    pub Service: String,
    pub Tags: Option<Vec<String>>,
    pub Port: u16,
    pub Address: String,
    pub EnableTagOverride: bool,
    pub CreateIndex: u64,
    pub ModifyIndex: u64,
}

} // verus!
