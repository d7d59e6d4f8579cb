//! The settings that are held in memory: each key with the entry that was
//! last stored under it.

use crate::error::{Error, ErrorKind};
use crate::models::config::{AddConfigEntry, ConfigEntry};
use crate::named::{find, holds, item_of, unique, upsert, without, without_keeps_names, Named};
use vstd::prelude::*;
use vstd::string::*;

verus! {

/// The host of the full node's websocket where no configuration names one.
pub const DEFAULT_FULLNODE_WS_HOST: &'static str = "druid.garden";

/// The port of the full node's websocket where no configuration names one.
pub const DEFAULT_FULLNODE_WS_PORT: u16 = 443;

/// The host of the full node's RPC where no configuration names one.
pub const DEFAULT_FULLNODE_RPC_HOST: &'static str = "druid.garden";

/// The port of the full node's RPC where no configuration names one.
pub const DEFAULT_FULLNODE_RPC_PORT: u16 = 443;

impl ConfigEntry {
    /// A copy of this entry.
    pub fn duplicate(&self) -> (out: ConfigEntry)
        ensures
            out == *self,
    {
        ConfigEntry {
            key: self.key.clone(),
            value: self.value.clone(),
            last_value: self.last_value.clone(),
            category: self.category.clone(),
            system: self.system,
            created: self.created,
            modified: self.modified,
        }
    }

    /// This entry as a caller hands it in, without its times.
    pub fn to_add(&self) -> (out: AddConfigEntry)
        ensures
            out == (AddConfigEntry {
                key: self.key,
                value: self.value,
                last_value: self.last_value,
                category: self.category,
                system: self.system,
            }),
    {
        AddConfigEntry {
            key: self.key.clone(),
            value: self.value.clone(),
            last_value: self.last_value.clone(),
            category: self.category.clone(),
            system: self.system,
        }
    }
}

/// An entry with the key under which it is held.
pub struct Setting {
    pub name: String,
    pub entry: ConfigEntry,
}

impl Named for Setting {
    open spec fn key(&self) -> Seq<char> {
        self.name@
    }

    fn name_text(&self) -> (out: &str) {
        self.name.as_str()
    }
}

/// The entry that is held under a key.
pub open spec fn entry_of(settings: Seq<Setting>, key: Seq<char>) -> Option<ConfigEntry> {
    match item_of(settings, key) {
        Some(setting) => Some(setting.entry),
        None => None,
    }
}

/// The entry that a list of stored entries holds last under a key.
pub open spec fn last_stored(entries: Seq<ConfigEntry>, key: Seq<char>) -> Option<ConfigEntry>
    decreases entries.len(),
{
    if entries.len() == 0 {
        None
    } else if entries.last().key@ == key {
        Some(entries.last())
    } else {
        last_stored(entries.drop_last(), key)
    }
}

/// The settings in memory.
pub struct ConfigManager {
    entries: Vec<Setting>,
}

impl ConfigManager {
    /// The settings, in the order in which their keys were first set.
    pub closed spec fn settings(&self) -> Seq<Setting> {
        self.entries@
    }

    /// The invariant of the settings: a key stands for at most one entry.
    pub open spec fn wf(&self) -> bool {
        unique(self.settings())
    }

    /// The entry that is held under a key.
    pub open spec fn held(&self, key: Seq<char>) -> Option<ConfigEntry> {
        entry_of(self.settings(), key)
    }

    /// The settings that hold the stored entries, each under its own key; of
    /// two entries with one key the later one is held.
    pub fn new(entries: Vec<ConfigEntry>) -> (out: ConfigManager)
        ensures
            out.wf(),
            forall|key: Seq<char>| #[trigger] out.held(key) == last_stored(entries@, key),
    {
        let ghost all = entries@;
        let mut settings: Vec<Setting> = Vec::new();
        assert forall|key: Seq<char>| #[trigger]
            entry_of(settings@, key) == last_stored(all.take(0), key) by {
            assert(!holds(settings@, key));
        }
        for entry in it: entries
            invariant
                it.seq() == all,
                unique(settings@),
                forall|key: Seq<char>| #[trigger]
                    entry_of(settings@, key) == last_stored(all.take(it.index@), key),
        {
            let ghost before = settings@;
            let ghost k = it.index@;
            let setting = Setting { name: entry.key.clone(), entry };
            upsert(&mut settings, setting);
            proof {
                assert(all.take(k + 1).drop_last() == all.take(k));
                assert(all.take(k + 1).last() == setting.entry);
                assert forall|key: Seq<char>| #[trigger]
                    entry_of(settings@, key) == last_stored(all.take(k + 1), key) by {
                    assert(item_of(settings@, key) == (if key == setting.key() {
                        Some(setting)
                    } else {
                        item_of(before, key)
                    }));
                    assert(entry_of(before, key) == last_stored(all.take(k), key));
                }
            }
        }
        proof {
            assert(all.take(all.len() as int) == all);
        }
        ConfigManager { entries: settings }
    }

    /// The entry that is held under a key.
    pub fn get(&self, key: &str) -> (out: Option<ConfigEntry>)
        requires
            self.wf(),
        ensures
            out == self.held(key@),
    {
        match find(&self.entries, key) {
            Some(i) => Some(self.entries[i].entry.duplicate()),
            None => None,
        }
    }

    /// Holds an entry under a key from the time `now` on, and hands back the
    /// entry that was held under the key before. The caller persists the
    /// entry where that is wanted.
    pub fn set(&mut self, key: &str, entry: AddConfigEntry, now: i64) -> (out: Option<ConfigEntry>)
        requires
            old(self).wf(),
        ensures
            final(self).wf(),
            out == old(self).held(key@),
            forall|other: Seq<char>|
                #[trigger] final(self).held(other) == (if other == key@ {
                    Some(
                        ConfigEntry {
                            key: entry.key,
                            value: entry.value,
                            last_value: entry.last_value,
                            category: entry.category,
                            system: entry.system,
                            created: now,
                            modified: now,
                        },
                    )
                } else {
                    old(self).held(other)
                }),
    {
        let before = self.get(key);
        upsert(
            &mut self.entries,
            Setting { name: String::from_str(key), entry: ConfigEntry::from_add(entry, now) },
        );
        before
    }

    /// Takes in what reading one key from the store gave: the entry is held
    /// under the key from now on. A key that the store does not know is
    /// refused with `NotFound`, and nothing changes.
    pub fn reload_key(&mut self, key: &str, stored: Option<ConfigEntry>, now: i64) -> (out: Result<
        (),
        Error,
    >)
        requires
            old(self).wf(),
        ensures
            final(self).wf(),
            match stored {
                Some(entry) => out is Ok && forall|other: Seq<char>|
                    #[trigger] final(self).held(other) == (if other == key@ {
                        Some(
                            ConfigEntry {
                                key: entry.key,
                                value: entry.value,
                                last_value: entry.last_value,
                                category: entry.category,
                                system: entry.system,
                                created: now,
                                modified: now,
                            },
                        )
                    } else {
                        old(self).held(other)
                    }),
                None => (out matches Err(e) && e.kind == ErrorKind::NotFound)
                    && final(self).settings() == old(self).settings(),
            },
    {
        match stored {
            Some(entry) => {
                let _ = self.set(key, entry.to_add(), now);
                Ok(())
            },
            None => Err(
                Error::new(
                    ErrorKind::NotFound,
                    String::from_str("Failed to find entry with key: ").concat(key),
                ),
            ),
        }
    }

    /// Takes in what reading all entries from the store gave: they take the
    /// place of everything that was held.
    pub fn reload(&mut self, entries: Vec<ConfigEntry>)
        ensures
            final(self).wf(),
            forall|key: Seq<char>| #[trigger] final(self).held(key) == last_stored(entries@, key),
    {
        let fresh = ConfigManager::new(entries);
        self.entries = fresh.entries;
    }

    /// The entries that are held, as the caller writes them to the store.
    pub fn save(&self) -> (out: Vec<AddConfigEntry>)
        ensures
            out@.len() == self.settings().len(),
            forall|i: int|
                0 <= i < out@.len() ==> #[trigger] out@[i] == (AddConfigEntry {
                    key: self.settings()[i].entry.key,
                    value: self.settings()[i].entry.value,
                    last_value: self.settings()[i].entry.last_value,
                    category: self.settings()[i].entry.category,
                    system: self.settings()[i].entry.system,
                }),
    {
        let mut out: Vec<AddConfigEntry> = Vec::new();
        let mut i: usize = 0;
        while i < self.entries.len()
            invariant
                i <= self.entries.len(),
                out@.len() == i,
                forall|j: int|
                    0 <= j < i ==> #[trigger] out@[j] == (AddConfigEntry {
                        key: self.entries@[j].entry.key,
                        value: self.entries@[j].entry.value,
                        last_value: self.entries@[j].entry.last_value,
                        category: self.entries@[j].entry.category,
                        system: self.entries@[j].entry.system,
                    }),
            decreases self.entries.len() - i,
        {
            out.push(self.entries[i].entry.to_add());
            i += 1;
        }
        out
    }

    /// Lets go of what is held under a key. The caller deletes the entry from
    /// the store.
    pub fn delete(&mut self, key: &str)
        requires
            old(self).wf(),
        ensures
            final(self).wf(),
            final(self).settings() == without(old(self).settings(), key@),
            forall|other: Seq<char>|
                #[trigger] final(self).held(other) == (if other == key@ {
                    None
                } else {
                    old(self).held(other)
                }),
    {
        proof {
            without_keeps_names(self.entries@, key@);
            assert forall|other: Seq<char>|
                #[trigger] entry_of(without(self.entries@, key@), other) == (if other == key@ {
                    None
                } else {
                    entry_of(self.entries@, other)
                }) by {
                assert(item_of(without(self.entries@, key@), other) == (if other == key@ {
                    None
                } else {
                    item_of(self.entries@, other)
                }));
            }
        }
        match find(&self.entries, key) {
            Some(i) => {
                self.entries.remove(i);
            },
            None => {},
        }
    }
}

} // verus!
