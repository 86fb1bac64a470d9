//! Request-handling logic of the LeadsNebula API: lead submission decisions,
//! authentication and security flows, dashboard update plans and the
//! in-memory WebAuthn challenge store.

pub mod text;
pub mod leads;
pub mod codec;
pub mod pulsar;
pub mod webauthn_challenge;
pub mod sql;
pub mod audit;
pub mod buyers;
pub mod publishers;
pub mod campaigns;
pub mod rule_sets;
pub mod lead_views;
pub mod security;
pub mod ping_trees;
pub mod health;
pub mod auth;
pub mod tenancy;
