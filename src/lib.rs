//! Rule-based triage of issues and pull requests: a unified entity view,
//! a boolean condition language, actions, and the rules that bind them.

pub mod actions;
pub mod conditions;
pub mod config;
pub mod document;
pub mod rules;
pub mod types;
