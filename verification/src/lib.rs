//! Discovery of an Xcode project for release automation: where its
//! workspace and project containers lie, which schemes the build tool lists,
//! which of them serve development and distribution, and which bundle
//! identifiers and signing team their build settings name.
//!
//! The library decides and computes; it reads no file and starts no process.
//! A [`scan::ScanJob`] says what it needs next, and the caller does that and
//! hands back what came of it.

pub mod containers;
pub mod doctor;
pub mod identity;
pub mod lane;
pub mod profile;
pub mod scan;
pub mod schemes;
pub mod settings;
pub mod shell;
pub mod text;
pub mod tool;
