//! The records that the library keeps and exchanges.

use vstd::prelude::*;
use vstd::string::*;

pub mod config;
pub mod plugins;

verus! {

/// Where the server listens and where it keeps its data.
#[derive(Clone, Debug)]
pub struct ServerSettings {
    pub hostname: String,
    pub port: u16,
    pub database_path: String,
    pub plugin_path: String,
}

impl ServerSettings {
    /// The settings from the values that the environment gave, each with its
    /// default where the environment gave none: host `0.0.0.0`, port 8080,
    /// database `druid_garden.sqlite`, plugin folder `./plugins`.
    pub fn from_values(
        hostname: Option<String>,
        port: Option<u16>,
        database_path: Option<String>,
        plugin_path: Option<String>,
    ) -> (out: ServerSettings)
        ensures
            out.hostname@ == (match hostname {
                Some(h) => h@,
                None => "0.0.0.0"@,
            }),
            out.port == (match port {
                Some(p) => p,
                None => 8080u16,
            }),
            out.database_path@ == (match database_path {
                Some(d) => d@,
                None => "druid_garden.sqlite"@,
            }),
            out.plugin_path@ == (match plugin_path {
                Some(p) => p@,
                None => "./plugins"@,
            }),
    {
        ServerSettings {
            hostname: match hostname {
                Some(h) => h,
                None => String::from_str("0.0.0.0"),
            },
            port: match port {
                Some(p) => p,
                None => 8080,
            },
            database_path: match database_path {
                Some(d) => d,
                None => String::from_str("druid_garden.sqlite"),
            },
            plugin_path: match plugin_path {
                Some(p) => p,
                None => String::from_str("./plugins"),
            },
        }
    }
}

} // verus!
