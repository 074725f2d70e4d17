//! Launcher logic for the dsh desktop shell: how the local dsh web service is
//! found or started, how the window's chrome and content views decide what they
//! may load, and how the dsh npm package is checked for updates and upgraded.

pub mod text;
pub mod version;
pub mod npm;
pub mod launch;
pub mod startup;
pub mod chrome;
pub mod update;
