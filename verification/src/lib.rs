//! Verified core of the CLOMonitor linter: check outputs, check registry,
//! datasource interpretation and the snapshot retention policy.

pub mod afdocs;
pub mod badge;
pub mod check;
pub mod checks;
pub mod github;
pub mod landscape;
pub mod matching;
pub mod patterns;
pub mod registry;
pub mod registry_laws;
pub mod scorecard;
pub mod search;
pub mod security_insights;
pub mod snapshots;
pub mod text;
pub mod views;
