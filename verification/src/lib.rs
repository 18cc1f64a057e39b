//! Column registry and configuration resolution for a process-monitoring
//! display tool.
//!
//! The crate owns the catalog of column kinds a process table can show
//! (platform-filtered, with stable names and case-insensitive fragment
//! search), the factory that turns a kind into its column object, the
//! nested configuration schema with a documented default for every field,
//! and the resolution of a partially specified configuration document
//! into a complete, immutable configuration.
//!
//! The central contracts: catalog names are unique within a platform even
//! ignoring case; resolving the document that spells a configuration out
//! gives that configuration back; a table a document omits resolves to
//! that table's own independent default; and a document naming an unknown
//! or platform-foreign kind is rejected with a structured error.

use vstd::prelude::*;

pub mod catalog;
pub mod chars_util;
pub mod column;
pub mod config;
pub mod document;
pub mod kind;
pub mod style;

verus! {

/// The operating-system family the catalog is filtered for.  Some column
/// kinds expose kernel-specific metrics and exist only on one family; the
/// active catalog is the subset of kinds supported by this platform.
#[derive(Clone, Copy, Debug, PartialEq, Eq, Structural)]
pub enum Platform {
    Linux,
    Mac,
}

} // verus!
