//! Mounting disks: the requests, and the setting under which a disk is
//! remembered for mounting at startup.

use crate::models::config::AddConfigEntry;
use vstd::prelude::*;
use vstd::string::*;

verus! {

/// The disk manager. It keeps nothing: every request goes to the system.
#[derive(Debug, Default)]
pub struct DiskManagerPlugin {}

impl DiskManagerPlugin {
    /// A disk manager.
    pub fn new() -> (out: DiskManagerPlugin) {
        DiskManagerPlugin {  }
    }
}

/// A request to mount a device at a path, and perhaps at every startup.
#[derive(Clone, Debug)]
pub struct MountParams {
    pub device_path: String,
    pub mount_path: String,
    pub auto_mount: Option<bool>,
}

/// A request to unmount what is mounted at a path.
#[derive(Clone, Debug)]
pub struct UnMountParams {
    pub mount_path: String,
}

/// The key of the setting that remembers a disk, by the identifier of its
/// file system, for mounting at startup.
pub fn auto_mount_key(uuid: &str) -> (out: String)
    ensures
        out@ == "auto-mount-"@ + uuid@,
{
    String::from_str("auto-mount-").concat(uuid)
}

impl MountParams {
    /// Whether the disk is to be mounted at every startup.
    pub fn wants_auto_mount(&self) -> (out: bool)
        ensures
            out == (self.auto_mount == Some(true)),
    {
        match self.auto_mount {
            Some(wanted) => wanted,
            None => false,
        }
    }

    /// The setting that remembers the disk of this request for mounting at
    /// startup, where that is asked for and the identifier of its file system
    /// is known.
    pub fn auto_mount_entry(&self, uuid: Option<&str>) -> (out: Option<AddConfigEntry>)
        ensures
            match out {
                Some(entry) => self.auto_mount == Some(true) && (uuid matches Some(id)
                    && entry.key@ == "auto-mount-"@ + id@) && entry.value@ == self.mount_path@
                    && entry.last_value@ == ""@ && entry.category@ == "preferences"@
                    && entry.system == 0,
                None => self.auto_mount != Some(true) || uuid is None,
            },
    {
        if !self.wants_auto_mount() {
            return None;
        }
        match uuid {
            Some(id) => Some(
                AddConfigEntry {
                    key: auto_mount_key(id),
                    value: self.mount_path.clone(),
                    last_value: String::from_str(""),
                    category: String::from_str("preferences"),
                    system: 0,
                },
            ),
            None => None,
        }
    }
}

} // verus!
