//! Core logic of the MacTTC price-table updater: configuration rules,
//! job status transitions, launch-agent text, localization and schedule decisions.

pub mod config;
pub mod text;
pub mod clock;
pub mod localization;
pub mod paths;
pub mod launch_agent;
pub mod status;
pub mod schedule;
pub mod menu;
