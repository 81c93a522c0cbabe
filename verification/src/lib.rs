//! Provisioning core for setting up a development machine.
//!
//! The crate holds the decisions of a bundle-based installer and none of its
//! input or output. A host program detects the machine, performs the
//! [`manager::effects::Effect`]s it is handed (downloads, process spawns, file
//! operations, log lines) and reports each [`manager::effects::Outcome`] back;
//! everything in between is decided here and proved against its contract:
//!
//! - [`config`]: machine description, operating-system categories and matching
//! - [`text`]: the string algorithms the instructions rely on
//! - [`manager`]: instructions, packages, bundles and the phased orchestration
//! - [`logger`]: log levels, filtering, rendering and the message bus
//! - [`packages`], [`bundles`]: the catalog that is fed into the core

pub mod bundles;
pub mod config;
pub mod logger;
pub mod manager;
pub mod packages;
pub mod text;
