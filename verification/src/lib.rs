//! Verge: the decision logic of a macOS front end for the Mihomo proxy core.
//!
//! The crate holds the parts of the application that compute: the UI state
//! reducer, the mapping from user actions to typed commands, validation of
//! configuration, manifests and privileged scripts, the bounded buffers and the
//! restart policy of the core supervisor, and the models behind the proxy list
//! and the tray menu. Process, socket, file and window handling live outside it.
#![allow(unused_imports)]

pub mod digest;
pub mod domain;
pub mod filters;
pub mod forms;
pub mod mihomo;
pub mod platform;
pub mod proxies;
pub mod script;
pub mod telemetry;
pub mod text;
pub mod ui;
