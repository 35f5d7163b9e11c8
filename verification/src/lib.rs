//! Verified core of the AlterSendme desktop client: transfer option mapping,
//! the localisation catalogue, release-version comparison, ticket text editing
//! and the workbench state machine that the GUI drives.

pub mod transfer;
pub mod text;
pub mod tables;
pub mod locale;
pub mod version;
pub mod update;
pub mod ticket;
pub mod workbench;
pub mod steps;
pub mod shell;
