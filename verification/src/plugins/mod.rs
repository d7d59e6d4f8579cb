//! The plugin registry: the rows that are known, the catalog of versions that
//! can be had, and the runtime entries of what has been started.

use crate::error::{Error, ErrorKind};
use crate::models::plugins::{plugin_from, AddPlugin, Plugin, PluginType};
use crate::named::{
    as_map, find, holds, item_of, lookup, merged, push_keeps_names, unique, upsert, without,
    without_keeps_names, Named,
};
use crate::text::same_text;
use crate::version::{semver_parse, version_order, version_text, Precedence, Version, VersionView};
use crate::PKG_VERSION;
use vstd::prelude::*;
use vstd::string::*;

pub mod disk_management;
pub mod docker;
pub mod farmer;
pub mod file;
pub mod file_manager;
pub mod led_manager;
pub mod runtime;

verus! {

impl Named for Plugin {
    open spec fn key(&self) -> Seq<char> {
        self.name@
    }

    fn name_text(&self) -> (out: &str) {
        self.name.as_str()
    }
}

/// An update that the catalog offers for a registered plugin.
#[derive(Clone, Debug)]
pub struct PluginUpdates {
    pub name: String,
    pub current_version: String,
    pub new_version: String,
}

/// The catalog document: every plugin that can be had.
#[derive(Clone, Debug)]
pub struct PluginStore {
    pub plugins: Vec<StorePlugin>,
}

/// An earlier version of a catalog plugin.
#[derive(Clone, Debug)]
pub struct PastStorePlugin {
    pub p_type: String,
    pub repo: String,
    pub tag: String,
    pub source: String,
    pub version: String,
    pub added: String,
    pub replaced: String,
}

/// A plugin as the catalog describes it.
#[derive(Clone, Debug)]
pub struct StorePlugin {
    pub name: String,
    pub p_type: String,
    pub repo: String,
    pub tag: String,
    pub source: String,
    pub added: String,
    pub version: String,
    pub updated: String,
    pub past_versions: Vec<PastStorePlugin>,
}

impl PastStorePlugin {
    /// A copy of this record.
    pub fn duplicate(&self) -> (out: PastStorePlugin)
        ensures
            out == *self,
    {
        PastStorePlugin {
            p_type: self.p_type.clone(),
            repo: self.repo.clone(),
            tag: self.tag.clone(),
            source: self.source.clone(),
            version: self.version.clone(),
            added: self.added.clone(),
            replaced: self.replaced.clone(),
        }
    }
}

impl StorePlugin {
    /// Whether two records say the same: the same texts, and the same
    /// earlier versions in the same order.
    pub open spec fn alike(&self, other: &StorePlugin) -> bool {
        &&& self.name == other.name
        &&& self.p_type == other.p_type
        &&& self.repo == other.repo
        &&& self.tag == other.tag
        &&& self.source == other.source
        &&& self.added == other.added
        &&& self.version == other.version
        &&& self.updated == other.updated
        &&& self.past_versions@ == other.past_versions@
    }

    /// A copy of this record, its earlier versions included.
    pub fn duplicate(&self) -> (out: StorePlugin)
        ensures
            out.alike(self),
    {
        let mut past: Vec<PastStorePlugin> = Vec::new();
        let mut i: usize = 0;
        while i < self.past_versions.len()
            invariant
                i <= self.past_versions.len(),
                past@ == self.past_versions@.take(i as int),
            decreases self.past_versions.len() - i,
        {
            past.push(self.past_versions[i].duplicate());
            proof {
                assert(self.past_versions@.take(i + 1) == self.past_versions@.take(i as int).push(
                    self.past_versions@[i as int],
                ));
            }
            i += 1;
        }
        proof {
            assert(self.past_versions@.take(self.past_versions.len() as int)
                == self.past_versions@);
            assert(past@ =~= self.past_versions@);
        }
        StorePlugin {
            name: self.name.clone(),
            p_type: self.p_type.clone(),
            repo: self.repo.clone(),
            tag: self.tag.clone(),
            source: self.source.clone(),
            added: self.added.clone(),
            version: self.version.clone(),
            updated: self.updated.clone(),
            past_versions: past,
        }
    }
}

impl Named for StorePlugin {
    open spec fn key(&self) -> Seq<char> {
        self.name@
    }

    fn name_text(&self) -> (out: &str) {
        self.name.as_str()
    }
}

/// What is kept of a started plugin: whether it is meant to run, whether a
/// supervising task was started for it, and when it was started, in seconds
/// since the epoch.
#[derive(Clone, Copy, Debug, PartialEq, Eq, Structural)]
pub struct RuntimeMetadata {
    pub run: Option<bool>,
    pub has_task: bool,
    pub started: i64,
}

/// The runtime of a plugin, by the mechanism that runs it.
#[derive(Clone, Copy, Debug, PartialEq, Eq, Structural)]
pub enum PluginRuntime {
    BuiltIn,
    Docker(RuntimeMetadata),
    File(RuntimeMetadata),
}

/// The runtime entry of one plugin name.
#[derive(Clone, Debug)]
pub struct RuntimeEntry {
    pub name: String,
    pub runtime: PluginRuntime,
}

impl Named for RuntimeEntry {
    open spec fn key(&self) -> Seq<char> {
        self.name@
    }

    fn name_text(&self) -> (out: &str) {
        self.name.as_str()
    }
}

/// Whether a plugin runs, whether it is meant to, and since when.
#[derive(Clone, Copy, Debug, PartialEq, Eq, Structural)]
pub struct PluginStatus {
    pub running: bool,
    pub should_be_running: bool,
    pub started: Option<i64>,
}

/// Whether a name is one of the four built-in plugins.
pub open spec fn builtin_name(name: Seq<char>) -> bool {
    name == "file_manager"@ || name == "disk_manager"@ || name == "system_monitor"@ || name
        == "farmer_manager"@
}

/// Whether a name is one of the four built-in plugins.
pub fn is_builtin_name(name: &str) -> (out: bool)
    ensures
        out == builtin_name(name@),
{
    same_text(name, "file_manager") || same_text(name, "disk_manager") || same_text(
        name,
        "system_monitor",
    ) || same_text(name, "farmer_manager")
}

/// The four built-in names differ from one another.
pub proof fn builtin_names_differ()
    ensures
        "file_manager"@ != "disk_manager"@,
        "file_manager"@ != "system_monitor"@,
        "file_manager"@ != "farmer_manager"@,
        "disk_manager"@ != "system_monitor"@,
        "disk_manager"@ != "farmer_manager"@,
        "system_monitor"@ != "farmer_manager"@,
{
    reveal_strlit("file_manager");
    reveal_strlit("disk_manager");
    reveal_strlit("system_monitor");
    reveal_strlit("farmer_manager");
    assert("file_manager"@[0] != "disk_manager"@[0]);
    assert("file_manager"@.len() != "system_monitor"@.len());
    assert("file_manager"@[1] != "farmer_manager"@[1]);
    assert("disk_manager"@.len() != "system_monitor"@.len());
    assert("disk_manager"@.len() != "farmer_manager"@.len());
    assert("system_monitor"@[0] != "farmer_manager"@[0]);
}

/// The label under which a built-in is shown.
pub open spec fn builtin_label(name: Seq<char>) -> Seq<char> {
    if name == "file_manager"@ {
        "File Manager"@
    } else if name == "disk_manager"@ {
        "Disk Manager"@
    } else if name == "system_monitor"@ {
        "System Monitor"@
    } else {
        "Fast Farmer"@
    }
}

/// Where a built-in comes from.
pub open spec fn builtin_repo(name: Seq<char>) -> Seq<char> {
    if name == "farmer_manager"@ {
        "https://builds.druid.garden/"@
    } else {
        "https://github.com/GalactechsLLC/dg_xch_os"@
    }
}

/// The tag of a built-in: empty but for the farmer.
pub open spec fn builtin_tag(name: Seq<char>) -> Seq<char> {
    if name == "farmer_manager"@ {
        "fast_farmer_gh"@
    } else {
        ""@
    }
}

/// Whether a row is the row of the built-in of this name, made at the time
/// `now`: enabled, of type `BuiltIn`, in this package's version, without id,
/// source or command.
pub open spec fn is_builtin_row(row: Plugin, name: Seq<char>, now: i64) -> bool {
    &&& row.name@ == name
    &&& row.label@ == builtin_label(name)
    &&& row.id is None
    &&& row.enabled == 1
    &&& row.plugin_type == PluginType::BuiltIn
    &&& row.repo@ == builtin_repo(name)
    &&& row.tag@ == builtin_tag(name)
    &&& row.source@ == ""@
    &&& row.run_command is None
    &&& row.version@ == PKG_VERSION@
    &&& row.added == now
    &&& row.updated == now
}

fn builtin_row(name: &str, label: &str, repo: &str, tag: &str, now: i64) -> (out: Plugin)
    ensures
        out.name@ == name@,
        out.label@ == label@,
        out.id is None,
        out.enabled == 1,
        out.plugin_type == PluginType::BuiltIn,
        out.repo@ == repo@,
        out.tag@ == tag@,
        out.source@ == ""@,
        out.run_command is None,
        out.version@ == PKG_VERSION@,
        out.added == now,
        out.updated == now,
{
    Plugin {
        id: None,
        label: String::from_str(label),
        name: String::from_str(name),
        enabled: 1,
        plugin_type: PluginType::BuiltIn,
        repo: String::from_str(repo),
        tag: String::from_str(tag),
        source: String::from_str(""),
        run_command: None,
        version: String::from_str(crate::version()),
        added: now,
        updated: now,
    }
}

fn builtin_entry(name: &str) -> (out: RuntimeEntry)
    ensures
        out.name@ == name@,
        out.runtime == PluginRuntime::BuiltIn,
{
    RuntimeEntry { name: String::from_str(name), runtime: PluginRuntime::BuiltIn }
}

/// The runtime that is recorded under a name.
pub open spec fn runtime_of(entries: Seq<RuntimeEntry>, name: Seq<char>) -> Option<PluginRuntime> {
    match item_of(entries, name) {
        Some(entry) => Some(entry.runtime),
        None => None,
    }
}

/// The update that a catalog version is for an installed version: the name
/// with the texts of both versions where both were read and the catalog's
/// stands above the installed one; nothing otherwise.
pub open spec fn update_between_spec(
    name: Seq<char>,
    current: Option<VersionView>,
    available: Option<VersionView>,
) -> Option<(Seq<char>, Seq<char>, Seq<char>)> {
    match (current, available) {
        (Some(cur), Some(new)) => if version_order(new, cur) == Some(1int) {
            Some((name, version_text(cur), version_text(new)))
        } else {
            None
        },
        _ => None,
    }
}

/// The update that the catalog offers for one row, if any. A row without a
/// catalog plugin of its name has none, and neither has one whose version, or
/// whose catalog version, is no semantic version.
pub open spec fn update_for(row: Plugin, catalog: Seq<StorePlugin>) -> Option<
    (Seq<char>, Seq<char>, Seq<char>),
> {
    match item_of(catalog, row.name@) {
        Some(available) => update_between_spec(
            row.name@,
            semver_parse(row.version@),
            semver_parse(available.version@),
        ),
        None => None,
    }
}

/// The updates that the catalog offers for the rows, in the order of the rows.
pub open spec fn updates_of(rows: Seq<Plugin>, catalog: Seq<StorePlugin>) -> Seq<
    (Seq<char>, Seq<char>, Seq<char>),
>
    decreases rows.len(),
{
    if rows.len() == 0 {
        Seq::empty()
    } else {
        let rest = updates_of(rows.drop_last(), catalog);
        match update_for(rows.last(), catalog) {
            Some(update) => rest.push(update),
            None => rest,
        }
    }
}

impl PluginUpdates {
    /// The name, the installed version and the new version, as characters.
    pub open spec fn parts(&self) -> (Seq<char>, Seq<char>, Seq<char>) {
        (self.name@, self.current_version@, self.new_version@)
    }
}

/// The parts of each update, in order.
pub open spec fn parts_of(updates: Seq<PluginUpdates>) -> Seq<(Seq<char>, Seq<char>, Seq<char>)> {
    Seq::new(updates.len(), |i: int| updates[i].parts())
}

/// The update that a catalog version is for an installed version of the
/// plugin of this name. Each version is given as it was read, or not at all
/// where its text was no semantic version.
pub fn update_between(name: &str, current: Option<Version>, available: Option<Version>) -> (out:
    Option<PluginUpdates>)
    ensures
        match out {
            Some(update) => update_between_spec(
                name@,
                match current {
                    Some(v) => Some(v@),
                    None => None,
                },
                match available {
                    Some(v) => Some(v@),
                    None => None,
                },
            ) == Some(update.parts()),
            None => update_between_spec(
                name@,
                match current {
                    Some(v) => Some(v@),
                    None => None,
                },
                match available {
                    Some(v) => Some(v@),
                    None => None,
                },
            ) is None,
        },
{
    match (current, available) {
        (Some(cur), Some(new)) => {
            match new.compare(&cur) {
                Some(Precedence::Higher) => Some(
                    PluginUpdates {
                        name: String::from_str(name),
                        current_version: cur.to_string(),
                        new_version: new.to_string(),
                    },
                ),
                _ => None,
            }
        },
        _ => None,
    }
}

/// A row whose version is no semantic version is passed over: the updates of
/// the other rows are what they are without it.
pub proof fn malformed_row_is_passed_over(
    rows: Seq<Plugin>,
    bad: Plugin,
    catalog: Seq<StorePlugin>,
)
    requires
        semver_parse(bad.version@) is None,
    ensures
        updates_of(rows.push(bad), catalog) == updates_of(rows, catalog),
{
    assert(rows.push(bad).drop_last() == rows);
    assert(rows.push(bad).last() == bad);
}

/// A row whose catalog plugin has a version that is no semantic version is
/// passed over in the same way.
pub proof fn malformed_catalog_version_is_passed_over(
    rows: Seq<Plugin>,
    row: Plugin,
    catalog: Seq<StorePlugin>,
)
    requires
        item_of(catalog, row.name@) matches Some(available) && semver_parse(available.version@)
            is None,
    ensures
        updates_of(rows.push(row), catalog) == updates_of(rows, catalog),
{
    assert(rows.push(row).drop_last() == rows);
    assert(rows.push(row).last() == row);
}

/// The registry of plugins with the runtime entries of those that were
/// started and the catalog that was last fetched.
pub struct PluginManager {
    bin_folder: String,
    plugins: Vec<Plugin>,
    plugin_runtimes: Vec<RuntimeEntry>,
    available_plugins: Vec<StorePlugin>,
    start_time: i64,
}

impl PluginManager {
    /// The registered rows, in the order in which they were registered.
    pub closed spec fn rows(&self) -> Seq<Plugin> {
        self.plugins@
    }

    /// The runtime entries, in the order in which they were made.
    pub closed spec fn entries(&self) -> Seq<RuntimeEntry> {
        self.plugin_runtimes@
    }

    /// The catalog as it was last fetched.
    pub closed spec fn catalog(&self) -> Seq<StorePlugin> {
        self.available_plugins@
    }

    /// When the registry was made, in seconds since the epoch.
    pub closed spec fn started_at(&self) -> i64 {
        self.start_time
    }

    /// The folder under which file plugins are kept.
    pub closed spec fn bin_root(&self) -> Seq<char> {
        self.bin_folder@
    }

    /// The invariant of the registry: a name stands for at most one row, at
    /// most one runtime entry and at most one catalog plugin; each built-in has
    /// its row and its runtime entry, and no other name has a built-in entry.
    pub open spec fn wf(&self) -> bool {
        &&& unique(self.rows())
        &&& unique(self.entries())
        &&& unique(self.catalog())
        &&& forall|name: Seq<char>| #[trigger]
            builtin_name(name) ==> holds(self.rows(), name)
        &&& forall|name: Seq<char>|
            builtin_name(name) <==> #[trigger] runtime_of(self.entries(), name) == Some(
                PluginRuntime::BuiltIn,
            )
    }

    /// Whether everything but the rows is as it is in `other`.
    pub open spec fn same_runtime_and_catalog(&self, other: &PluginManager) -> bool {
        &&& self.entries() == other.entries()
        &&& self.catalog() == other.catalog()
        &&& self.started_at() == other.started_at()
        &&& self.bin_root() == other.bin_root()
    }

    /// The registry at startup: the persisted rows, a later row taking the
    /// place of an earlier one of its name, then the four built-ins, each
    /// taking the place of any persisted row of its name. Only the built-ins
    /// have a runtime entry, and the catalog is empty.
    pub fn new(rows: Vec<Plugin>, bin_folder: String, now: i64) -> (out: PluginManager)
        ensures
            out.wf(),
            out.catalog().len() == 0,
            out.started_at() == now,
            out.bin_root() == bin_folder@,
            forall|name: Seq<char>|
                builtin_name(name) ==> (#[trigger] item_of(out.rows(), name) matches Some(row)
                    && is_builtin_row(row, name, now)),
            forall|name: Seq<char>|
                !builtin_name(name) ==> #[trigger] item_of(out.rows(), name) == lookup(
                    as_map(rows@),
                    name,
                ),
            forall|name: Seq<char>|
                #[trigger] runtime_of(out.entries(), name) == (if builtin_name(name) {
                    Some(PluginRuntime::BuiltIn)
                } else {
                    None
                }),
    {
        proof {
            builtin_names_differ();
        }
        let mut plugins = merged(rows);
        upsert(
            &mut plugins,
            builtin_row(
                "file_manager",
                "File Manager",
                "https://github.com/GalactechsLLC/dg_xch_os",
                "",
                now,
            ),
        );
        upsert(
            &mut plugins,
            builtin_row(
                "disk_manager",
                "Disk Manager",
                "https://github.com/GalactechsLLC/dg_xch_os",
                "",
                now,
            ),
        );
        upsert(
            &mut plugins,
            builtin_row(
                "system_monitor",
                "System Monitor",
                "https://github.com/GalactechsLLC/dg_xch_os",
                "",
                now,
            ),
        );
        upsert(
            &mut plugins,
            builtin_row(
                "farmer_manager",
                "Fast Farmer",
                "https://builds.druid.garden/",
                "fast_farmer_gh",
                now,
            ),
        );
        let mut runtimes: Vec<RuntimeEntry> = Vec::new();
        assert forall|name: Seq<char>| #[trigger] item_of(runtimes@, name) is None by {
            assert(!holds(runtimes@, name));
        }
        upsert(&mut runtimes, builtin_entry("file_manager"));
        upsert(&mut runtimes, builtin_entry("disk_manager"));
        upsert(&mut runtimes, builtin_entry("system_monitor"));
        upsert(&mut runtimes, builtin_entry("farmer_manager"));
        let out = PluginManager {
            bin_folder,
            plugins,
            plugin_runtimes: runtimes,
            available_plugins: Vec::new(),
            start_time: now,
        };
        proof {
            assert forall|name: Seq<char>| #[trigger] builtin_name(name) implies holds(
                out.rows(),
                name,
            ) by {
                assert(item_of(out.rows(), name) is Some);
            }
        }
        out
    }

    /// A copy of the catalog as it was last fetched.
    pub fn available_plugins(&self) -> (out: Vec<StorePlugin>)
        ensures
            out@.len() == self.catalog().len(),
            forall|i: int| 0 <= i < out@.len() ==> (#[trigger] out@[i]).alike(&self.catalog()[i]),
    {
        let mut out: Vec<StorePlugin> = Vec::new();
        let mut i: usize = 0;
        while i < self.available_plugins.len()
            invariant
                i <= self.available_plugins.len(),
                out@.len() == i,
                forall|j: int|
                    0 <= j < i ==> (#[trigger] out@[j]).alike(&self.available_plugins@[j]),
            decreases self.available_plugins.len() - i,
        {
            out.push(self.available_plugins[i].duplicate());
            i += 1;
        }
        out
    }

    /// Takes in what fetching the catalog gave. A fetched catalog takes the
    /// place of the one that was held, a later plugin taking the place of an
    /// earlier one of its name. A failure is handed back, and the catalog that
    /// was held stays.
    pub fn update_plugin_store(&mut self, fetched: Result<PluginStore, Error>) -> (out: Result<
        bool,
        Error,
    >)
        requires
            old(self).wf(),
        ensures
            final(self).wf(),
            final(self).rows() == old(self).rows(),
            final(self).entries() == old(self).entries(),
            final(self).started_at() == old(self).started_at(),
            final(self).bin_root() == old(self).bin_root(),
            match fetched {
                Ok(store) => out == Ok::<bool, Error>(true) && forall|name: Seq<char>|
                    #[trigger] item_of(final(self).catalog(), name) == lookup(
                        as_map(store.plugins@),
                        name,
                    ),
                Err(e) => out == Err::<bool, Error>(e) && final(self).catalog()
                    == old(self).catalog(),
            },
    {
        match fetched {
            Ok(store) => {
                self.available_plugins = merged(store.plugins);
                Ok(true)
            },
            Err(e) => Err(e),
        }
    }

    /// The updates that the catalog offers for the registered plugins, in the
    /// order of the rows. This never fails: a plugin whose version cannot be
    /// read, on either side, is passed over.
    pub fn plugin_updates(&self) -> (out: Result<Vec<PluginUpdates>, Error>)
        requires
            self.wf(),
        ensures
            out matches Ok(updates) && parts_of(updates@) == updates_of(
                self.rows(),
                self.catalog(),
            ),
    {
        let mut updates: Vec<PluginUpdates> = Vec::new();
        let mut i: usize = 0;
        proof {
            assert(parts_of(updates@) =~= updates_of(self.plugins@.take(0), self.catalog()));
        }
        while i < self.plugins.len()
            invariant
                i <= self.plugins.len(),
                self.wf(),
                parts_of(updates@) == updates_of(self.plugins@.take(i as int), self.catalog()),
            decreases self.plugins.len() - i,
        {
            let row = &self.plugins[i];
            proof {
                assert(self.plugins@.take(i + 1).drop_last() == self.plugins@.take(i as int));
                assert(self.plugins@.take(i + 1).last() == *row);
            }
            let ghost before = updates@;
            match find(&self.available_plugins, row.name.as_str()) {
                Some(a) => {
                    let available = &self.available_plugins[a];
                    let current = Version::parse(row.version.as_str());
                    let offered = Version::parse(available.version.as_str());
                    match update_between(row.name.as_str(), current, offered) {
                        Some(update) => {
                            updates.push(update);
                            proof {
                                assert(parts_of(updates@) =~= parts_of(before).push(
                                    update.parts(),
                                ));
                            }
                        },
                        None => {},
                    }
                },
                None => {},
            }
            i += 1;
        }
        proof {
            assert(self.plugins@.take(self.plugins.len() as int) == self.plugins@);
        }
        Ok(updates)
    }

    /// Registers a plugin under a name that is not yet known. The caller
    /// persists the row that comes back. A name that is known already, that of
    /// a built-in too, is refused with `AlreadyExists`, and nothing changes.
    pub fn add(&mut self, plugin: AddPlugin, now: i64) -> (out: Result<Plugin, Error>)
        requires
            old(self).wf(),
        ensures
            final(self).wf(),
            final(self).same_runtime_and_catalog(old(self)),
            item_of(old(self).rows(), plugin.name@) is Some ==> (out matches Err(e) && e.kind
                == ErrorKind::AlreadyExists) && final(self).rows() == old(self).rows(),
            item_of(old(self).rows(), plugin.name@) is None ==> out == Ok::<Plugin, Error>(
                plugin_from(plugin, now),
            ) && final(self).rows() == old(self).rows().push(plugin_from(plugin, now)),
            forall|name: Seq<char>|
                #[trigger] item_of(final(self).rows(), name) == (if out is Ok && name
                    == plugin.name@ {
                    Some(plugin_from(plugin, now))
                } else {
                    item_of(old(self).rows(), name)
                }),
    {
        if find(&self.plugins, plugin.name.as_str()).is_some() {
            let message = String::from_str("Plugin ").concat(plugin.name.as_str()).concat(
                " already exists",
            );
            return Err(Error::new(ErrorKind::AlreadyExists, message));
        }
        let row = Plugin::from_add(plugin, now);
        let kept = row.duplicate();
        proof {
            push_keeps_names(self.plugins@, kept);
            assert forall|name: Seq<char>| #[trigger]
                builtin_name(name) implies holds(self.plugins@.push(kept), name) by {
                assert(item_of(self.plugins@, name) is Some);
                assert(item_of(self.plugins@.push(kept), name) is Some);
            }
        }
        self.plugins.push(kept);
        Ok(row)
    }

    /// The row that a changed plugin becomes, for the caller to persist. A
    /// name that is not known is refused with `NotFound`. The registry itself
    /// keeps the row that it had.
    pub fn update_plugin(&self, plugin: AddPlugin, now: i64) -> (out: Result<Plugin, Error>)
        requires
            self.wf(),
        ensures
            item_of(self.rows(), plugin.name@) is Some ==> out == Ok::<Plugin, Error>(
                plugin_from(plugin, now),
            ),
            item_of(self.rows(), plugin.name@) is None ==> (out matches Err(e) && e.kind
                == ErrorKind::NotFound),
    {
        if find(&self.plugins, plugin.name.as_str()).is_none() {
            let message = String::from_str("Plugin ").concat(plugin.name.as_str()).concat(
                " does not exists",
            );
            return Err(Error::new(ErrorKind::NotFound, message));
        }
        Ok(Plugin::from_add(plugin, now))
    }

    /// Takes a plugin out of the registry, with its runtime entry if it has
    /// one, and says whether it had a row. A built-in is refused with
    /// `PermissionDenied`, and nothing changes.
    pub fn uninstall(&mut self, plugin: &Plugin) -> (out: Result<bool, Error>)
        requires
            old(self).wf(),
        ensures
            final(self).wf(),
            final(self).catalog() == old(self).catalog(),
            final(self).started_at() == old(self).started_at(),
            final(self).bin_root() == old(self).bin_root(),
            builtin_name(plugin.name@) ==> (out matches Err(e) && e.kind
                == ErrorKind::PermissionDenied) && final(self).rows() == old(self).rows()
                && final(self).entries() == old(self).entries(),
            !builtin_name(plugin.name@) ==> out == Ok::<bool, Error>(
                item_of(old(self).rows(), plugin.name@) is Some,
            ) && final(self).rows() == without(old(self).rows(), plugin.name@)
                && final(self).entries() == without(old(self).entries(), plugin.name@),
            forall|name: Seq<char>|
                #[trigger] item_of(final(self).rows(), name) == (if out is Ok && name
                    == plugin.name@ {
                    None
                } else {
                    item_of(old(self).rows(), name)
                }),
            forall|name: Seq<char>|
                #[trigger] runtime_of(final(self).entries(), name) == (if out is Ok && name
                    == plugin.name@ {
                    None
                } else {
                    runtime_of(old(self).entries(), name)
                }),
    {
        if is_builtin_name(plugin.name.as_str()) {
            return Err(
                Error::new(
                    ErrorKind::PermissionDenied,
                    String::from_str("Unable to Uninstall Builtin Plugins"),
                ),
            );
        }
        proof {
            without_keeps_names(self.plugins@, plugin.name@);
            without_keeps_names(self.plugin_runtimes@, plugin.name@);
            assert forall|name: Seq<char>| #[trigger]
                builtin_name(name) implies holds(without(self.plugins@, plugin.name@), name) by {
                assert(item_of(self.plugins@, name) is Some);
                assert(item_of(without(self.plugins@, plugin.name@), name) is Some);
            }
            assert forall|name: Seq<char>|
                builtin_name(name) <==> #[trigger] runtime_of(
                    without(self.plugin_runtimes@, plugin.name@),
                    name,
                ) == Some(PluginRuntime::BuiltIn) by {
                assert(builtin_name(name) <==> runtime_of(self.plugin_runtimes@, name) == Some(
                    PluginRuntime::BuiltIn,
                ));
                assert(item_of(without(self.plugin_runtimes@, plugin.name@), name) == (if name
                    == plugin.name@ {
                    None
                } else {
                    item_of(self.plugin_runtimes@, name)
                }));
            }
        }
        let held = match find(&self.plugins, plugin.name.as_str()) {
            Some(i) => {
                self.plugins.remove(i);
                true
            },
            None => false,
        };
        match find(&self.plugin_runtimes, plugin.name.as_str()) {
            Some(i) => {
                self.plugin_runtimes.remove(i);
            },
            None => {},
        }
        Ok(held)
    }
}

} // verus!
