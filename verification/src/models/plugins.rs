//! Plugin rows.

use crate::text::lower_text;
use vstd::prelude::*;
use vstd::std_specs::convert::FromSpecImpl;
use vstd::string::*;

verus! {

/// The mechanism that runs a plugin.
#[derive(Clone, Copy, Debug, PartialEq, Eq, Structural)]
pub enum PluginType {
    BuiltIn,
    Docker,
    File,
    RustProject,
    Invalid,
}

/// The plugin type that a stored text stands for, whatever its case: one of
/// the four known words, or `Invalid` for any other text.
pub open spec fn plugin_type_of(text: Seq<char>) -> PluginType {
    let lower = lower_text(text);
    if lower == "builtin"@ {
        PluginType::BuiltIn
    } else if lower == "docker"@ {
        PluginType::Docker
    } else if lower == "rustproject"@ {
        PluginType::RustProject
    } else if lower == "file"@ {
        PluginType::File
    } else {
        PluginType::Invalid
    }
}

impl From<String> for PluginType {
    fn from(s: String) -> (out: PluginType) {
        let lower = s.as_str().to_ascii_lowercase();
        if lower == String::from_str("builtin") {
            PluginType::BuiltIn
        } else if lower == String::from_str("docker") {
            PluginType::Docker
        } else if lower == String::from_str("rustproject") {
            PluginType::RustProject
        } else if lower == String::from_str("file") {
            PluginType::File
        } else {
            PluginType::Invalid
        }
    }
}

impl FromSpecImpl<String> for PluginType {
    open spec fn obeys_from_spec() -> bool {
        true
    }

    open spec fn from_spec(s: String) -> PluginType {
        plugin_type_of(s@)
    }
}

/// A plugin as a caller hands it in.
#[derive(Clone, Debug)]
pub struct AddPlugin {
    pub label: String,
    pub name: String,
    pub enabled: i64,
    pub plugin_type: PluginType,
    pub repo: String,
    pub tag: String,
    pub version: String,
    pub source: String,
    pub run_command: Option<String>,
}

/// A plugin as the registry holds it. The two times are in seconds since the
/// epoch.
#[derive(Clone, Debug)]
pub struct Plugin {
    pub id: Option<i64>,
    pub label: String,
    pub name: String,
    pub enabled: i64,
    pub plugin_type: PluginType,
    pub repo: String,
    pub tag: String,
    pub source: String,
    pub run_command: Option<String>,
    pub version: String,
    pub added: i64,
    pub updated: i64,
}

/// The row that a plugin handed in at the time `now` becomes.
pub open spec fn plugin_from(val: AddPlugin, now: i64) -> Plugin {
    Plugin {
        id: None,
        label: val.label,
        name: val.name,
        enabled: val.enabled,
        plugin_type: val.plugin_type,
        repo: val.repo,
        tag: val.tag,
        source: val.source,
        run_command: val.run_command,
        version: val.version,
        added: now,
        updated: now,
    }
}

impl Plugin {
    /// The row of a plugin that was handed in at the time `now`: it has no id
    /// yet, and was added and updated then.
    pub fn from_add(val: AddPlugin, now: i64) -> (out: Plugin)
        ensures
            out == plugin_from(val, now),
    {
        Plugin {
            id: None,
            label: val.label,
            name: val.name,
            enabled: val.enabled,
            plugin_type: val.plugin_type,
            repo: val.repo,
            tag: val.tag,
            source: val.source,
            run_command: val.run_command,
            version: val.version,
            added: now,
            updated: now,
        }
    }

    /// A copy of this row.
    pub fn duplicate(&self) -> (out: Plugin)
        ensures
            out == *self,
    {
        Plugin {
            id: self.id,
            label: self.label.clone(),
            name: self.name.clone(),
            enabled: self.enabled,
            plugin_type: self.plugin_type,
            repo: self.repo.clone(),
            tag: self.tag.clone(),
            source: self.source.clone(),
            run_command: match &self.run_command {
                Some(c) => Some(c.clone()),
                None => None,
            },
            version: self.version.clone(),
            added: self.added,
            updated: self.updated,
        }
    }
}

/// A value in the environment of a plugin.
#[derive(Clone, Debug)]
pub struct PluginEnvironmentEntry {
    pub plugin_id: i64,
    pub key: String,
    pub value: String,
    pub added: i64,
    pub updated: i64,
}

} // verus!
