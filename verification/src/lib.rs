//! Job management logic for launchd: status parsing, filters, capability rules,
//! diagnostics, plist document mapping and the decision logic of the desktop app.
pub mod adapter;
pub mod companion;
pub mod config;
pub mod controller;
pub mod domain;
pub mod error;
pub mod path;
pub mod service;
pub mod string_map;
pub mod text;
pub mod ui_state;
