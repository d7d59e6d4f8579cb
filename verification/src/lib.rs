//! Plugin and external-process orchestration: a registry of plugins, the
//! runtime state machine that starts and stops them, the catalog of available
//! updates, and the supervisor of the farmer binary with its update flow.

use vstd::prelude::*;
use vstd::string::*;

pub mod config;
pub mod database;
pub mod error;
pub mod gpio;
pub mod models;
pub mod named;
pub mod plugins;
pub mod text;
pub mod version;
pub mod web;

verus! {

/// Name of this package.
pub const PKG_NAME: &'static str = "druid_garden_os";

/// Version of this package.
pub const PKG_VERSION: &'static str = "0.1.0";

/// The version of this package.
pub fn version() -> (out: &'static str)
    ensures
        out@ == PKG_VERSION@,
{
    PKG_VERSION
}

/// The name of this package.
pub fn pkg_name() -> (out: &'static str)
    ensures
        out@ == PKG_NAME@,
{
    PKG_NAME
}

/// The package name, a colon and a space, then the package version.
pub fn named_version() -> (out: String)
    ensures
        out@ == PKG_NAME@ + ": "@ + PKG_VERSION@,
{
    let name = String::from_str(pkg_name());
    let labelled = name.concat(": ");
    labelled.concat(version())
}

} // verus!
