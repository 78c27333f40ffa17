//! Plain data models of the cluster scheduler's API that the services submit
//! jobs through. A fresh model starts with every optional field unset.

use vstd::prelude::*;

verus! {

/// A placement constraint of a scheduled job.
#[derive(Clone, Debug, PartialEq)]
pub struct Constraint {
    pub l_target: Option<String>,
    pub operand: Option<String>,
    pub r_target: Option<String>,
}

impl Constraint {
    pub fn new() -> (r: Constraint)
        ensures
            r.l_target is None,
            r.operand is None,
            r.r_target is None,
    {
        Constraint { l_target: None, operand: None, r_target: None }
    }
}

impl Default for Constraint {
    fn default() -> (r: Self)
        ensures
            r.l_target is None,
            r.operand is None,
            r.r_target is None,
    {
        Constraint::new()
    }
}

/// The periodic (cron-like) configuration of a scheduled job.
#[derive(Clone, Debug, PartialEq)]
pub struct PeriodicConfig {
    pub enabled: Option<bool>,
    pub prohibit_overlap: Option<bool>,
    pub spec_expression: Option<String>,
    pub spec_type: Option<String>,
    pub time_zone: Option<String>,
}

impl PeriodicConfig {
    pub fn new() -> (r: PeriodicConfig)
        ensures
            r.enabled is None,
            r.prohibit_overlap is None,
            r.spec_expression is None,
            r.spec_type is None,
            r.time_zone is None,
    {
        PeriodicConfig {
            enabled: None,
            prohibit_overlap: None,
            spec_expression: None,
            spec_type: None,
            time_zone: None,
        }
    }
}

impl Default for PeriodicConfig {
    fn default() -> (r: Self)
        ensures
            r.enabled is None,
            r.prohibit_overlap is None,
            r.spec_expression is None,
            r.spec_type is None,
            r.time_zone is None,
    {
        PeriodicConfig::new()
    }
}

/// How failed allocations of a job are rescheduled.
#[derive(Clone, Debug, PartialEq)]
pub struct ReschedulePolicy {
    pub attempts: Option<i32>,
    pub delay: Option<i64>,
    pub delay_function: Option<String>,
    pub interval: Option<i64>,
    pub max_delay: Option<i64>,
    pub unlimited: Option<bool>,
}

impl ReschedulePolicy {
    pub fn new() -> (r: ReschedulePolicy)
        ensures
            r.attempts is None,
            r.delay is None,
            r.delay_function is None,
            r.interval is None,
            r.max_delay is None,
            r.unlimited is None,
    {
        ReschedulePolicy {
            attempts: None,
            delay: None,
            delay_function: None,
            interval: None,
            max_delay: None,
            unlimited: None,
        }
    }
}

impl Default for ReschedulePolicy {
    fn default() -> (r: Self)
        ensures
            r.attempts is None,
            r.delay is None,
            r.delay_function is None,
            r.interval is None,
            r.max_delay is None,
            r.unlimited is None,
    {
        ReschedulePolicy::new()
    }
}

/// The secret-store stanza of a scheduled job.
#[derive(Clone, Debug, PartialEq)]
pub struct Vault {
    pub change_mode: Option<String>,
    pub change_signal: Option<String>,
    pub env: Option<bool>,
    pub namespace: Option<String>,
    pub policies: Option<Vec<String>>,
}

impl Vault {
    pub fn new() -> (r: Vault)
        ensures
            r.change_mode is None,
            r.change_signal is None,
            r.env is None,
            r.namespace is None,
            r.policies is None,
    {
        Vault { change_mode: None, change_signal: None, env: None, namespace: None, policies: None }
    }
}

impl Default for Vault {
    fn default() -> (r: Self)
        ensures
            r.change_mode is None,
            r.change_signal is None,
            r.env is None,
            r.namespace is None,
            r.policies is None,
    {
        Vault::new()
    }
}

} // verus!
