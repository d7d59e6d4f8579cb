//! Configuration rows.

use vstd::prelude::*;

verus! {

/// A configuration entry as a caller hands it in.
#[derive(Clone, Debug)]
pub struct AddConfigEntry {
    pub key: String,
    pub value: String,
    pub last_value: String,
    pub category: String,
    pub system: i64,
}

/// A configuration entry as it is stored, with the times in seconds since the
/// epoch at which it was created and last changed.
#[derive(Clone, Debug)]
pub struct ConfigEntry {
    pub key: String,
    pub value: String,
    pub last_value: String,
    pub category: String,
    pub system: i64,
    pub created: i64,
    pub modified: i64,
}

impl ConfigEntry {
    /// The stored form of an entry that was handed in at the time `now`.
    pub fn from_add(entry: AddConfigEntry, now: i64) -> (out: ConfigEntry)
        ensures
            out == (ConfigEntry {
                key: entry.key,
                value: entry.value,
                last_value: entry.last_value,
                category: entry.category,
                system: entry.system,
                created: now,
                modified: now,
            }),
    {
        ConfigEntry {
            key: entry.key,
            value: entry.value,
            last_value: entry.last_value,
            category: entry.category,
            system: entry.system,
            created: now,
            modified: now,
        }
    }
}

} // verus!
