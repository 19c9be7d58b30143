//! Verified capability delivery, approval binding, and run-fencing rules for
//! GraphQL-backed AI agents.

mod text;
pub mod digest;
pub mod error;
pub mod tools;
pub mod capability_delivery;
pub mod capability_description;
pub mod scope;
pub mod execution;
pub mod approvals;
pub mod native;
pub mod configuration;
pub mod message_preview;
pub mod budget;
pub mod broker;
pub mod delivery_turn;
pub mod coordinator;
pub mod egress;
pub mod broker_arguments;
pub mod broker_execution;
