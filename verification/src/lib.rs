//! Core logic of a per-user Linux isolation module.
//!
//! When a user logs in, the surrounding session code places the user's
//! processes into a dedicated network namespace (with a veth pair for
//! egress) and, optionally, a private mount namespace carrying a
//! user-owned tmpfs scratch filesystem.  This crate holds the verified
//! decision core of that protocol: the deterministic address allocator,
//! the derivation of kernel object names, the classification of process
//! table entries, the sysctl value conversion pass, and the provisioning
//! coordinator that sequences lock, marker, network and mount work.
//! Kernel syscalls and netlink traffic are performed by an unverified
//! driver that asks the coordinator for each next step.

pub mod addr;
pub mod bytes;
pub mod config;
pub mod engine;
pub mod error;
pub mod model;
pub mod names;
pub mod probe;
pub mod sysctl;

pub use addr::{generate_veth_addresses, AddressPair, V4Addr, V6Addr};
pub use config::{default_log_level, default_user_env, Config, Mount, Net, Users};
pub use engine::{Action, Coordinator, Event, Phase, SessionParams};
pub use error::IsolateError;
pub use sysctl::{convert_value, plan_sysctl, ConfigEntry, CtlSetting, RawValue};
