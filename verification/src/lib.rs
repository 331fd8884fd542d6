//! Verified orchestration core for zero-touch Wi-Fi provisioning.
//!
//! A headless device opens a temporary captive-portal access point, lets an
//! operator submit credentials for a real network, attempts that connection,
//! and tears the portal down again.  This crate holds the verified heart of
//! that flow: access-point filtering and security classification, credential
//! construction and validation, device selection, the helper-process argument
//! builder, and the command-handling state machine with its lifecycle
//! invariants.  Process plumbing (D-Bus calls, the DHCP helper, the web front
//! end, signal traps) lives outside and drives the state machine through
//! plain events and actions.

pub mod access_point;
pub mod cli;
pub mod config;
pub mod device;
pub mod dnsmasq;
pub mod errors;
pub mod exit;
pub mod handler;
pub mod network;
pub mod opts;
pub mod privileges;
pub mod profiles;
pub mod security;
pub mod text;
pub mod web;
