//! Agents that wrap a provider: one that collects information first, one that plans
//! first, and one that classifies the user's input.

pub mod info_colloctor;
pub mod matcher;
pub mod planner;
