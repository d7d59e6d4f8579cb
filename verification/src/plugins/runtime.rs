//! The runtime state machine: what starting, stopping and asking after a
//! plugin does to the runtime entries, and what the caller is to do with the
//! backend that runs the plugin.

use crate::error::{Error, ErrorKind};
use crate::models::plugins::{Plugin, PluginType};
use crate::named::{
    find, holds, item_of, push_keeps_names, unique, without, without_keeps_names, Named,
};
use crate::plugins::docker::start_rust_plugin;
use crate::plugins::{
    builtin_name, runtime_of, PluginManager, PluginRuntime, PluginStatus, RuntimeEntry,
    RuntimeMetadata,
};
use crate::text::{lower_text, same_text};
use vstd::prelude::*;
use vstd::string::*;

verus! {

/// What the caller is to do after a start was accepted.
#[derive(Clone, Copy, Debug, PartialEq, Eq, Structural)]
pub enum StartAction {
    /// Nothing: the plugin has no backend to launch.
    Nothing,
    /// Launch the container of the plugin.
    LaunchContainer,
    /// Launch the executable of the plugin under a supervising task.
    LaunchFile,
}

/// What the caller is to do after a stop was accepted.
#[derive(Clone, Copy, Debug, PartialEq, Eq, Structural)]
pub enum StopAction {
    /// Nothing: the plugin had no runtime entry.
    NotRunning,
    /// Stop the container of the plugin, then remove it.
    StopContainer,
    /// Tell the supervising task to end, and wait for it.
    StopTask,
}

/// The status of a plugin, or what has to be asked of its backend to know it.
#[derive(Clone, Copy, Debug, PartialEq, Eq, Structural)]
pub enum StatusQuery {
    /// The status is known without asking.
    Known(PluginStatus),
    /// The container engine has to list the containers of this name.
    Container(RuntimeMetadata),
    /// The supervising task has to say whether it has finished.
    Task(RuntimeMetadata),
}

/// What the container engine says of one container.
#[derive(Clone, Debug)]
pub struct ContainerSummary {
    pub state: Option<String>,
}

/// How the supervising task of a file plugin ended.
#[derive(Clone, Debug)]
pub enum TaskOutcome {
    /// The task ran to its end.
    Finished,
    /// The task ended with an error of its own.
    Failed(Error),
    /// The task could not be joined.
    JoinFailed(String),
}

/// The kind of an error, in place of the error.
pub open spec fn by_kind<T>(result: Result<T, Error>) -> Result<T, ErrorKind> {
    match result {
        Ok(value) => Ok(value),
        Err(e) => Err(e.kind),
    }
}

/// What a start is answered with: `AlreadyExists` where the name has a runtime
/// entry; else by the type of the plugin.
pub open spec fn start_result(entries: Seq<RuntimeEntry>, plugin: Plugin) -> Result<
    StartAction,
    ErrorKind,
> {
    if runtime_of(entries, plugin.name@) is Some {
        Err(ErrorKind::AlreadyExists)
    } else {
        match plugin.plugin_type {
            PluginType::BuiltIn => Ok(StartAction::Nothing),
            PluginType::Invalid => Ok(StartAction::Nothing),
            PluginType::Docker => Ok(StartAction::LaunchContainer),
            PluginType::File => Ok(StartAction::LaunchFile),
            PluginType::RustProject => Err(ErrorKind::Unsupported),
        }
    }
}

/// The runtime that a start at the time `now` records for a plugin of this
/// type: one for a container or a file plugin, none for the others.
pub open spec fn started_runtime(plugin_type: PluginType, now: i64) -> Option<PluginRuntime> {
    match plugin_type {
        PluginType::Docker => Some(
            PluginRuntime::Docker(RuntimeMetadata { run: Some(true), has_task: false, started: now }),
        ),
        PluginType::File => Some(
            PluginRuntime::File(RuntimeMetadata { run: Some(true), has_task: true, started: now }),
        ),
        _ => None,
    }
}

/// The runtime entries after a start at the time `now`.
pub open spec fn entries_after_start(entries: Seq<RuntimeEntry>, plugin: Plugin, now: i64) -> Seq<
    RuntimeEntry,
> {
    if runtime_of(entries, plugin.name@) is Some {
        entries
    } else {
        match started_runtime(plugin.plugin_type, now) {
            Some(runtime) => entries.push(RuntimeEntry { name: plugin.name, runtime }),
            None => entries,
        }
    }
}

/// What a stop is answered with.
pub open spec fn stop_result(entries: Seq<RuntimeEntry>, name: Seq<char>) -> Result<
    StopAction,
    ErrorKind,
> {
    match runtime_of(entries, name) {
        None => Ok(StopAction::NotRunning),
        Some(PluginRuntime::BuiltIn) => Err(ErrorKind::PermissionDenied),
        Some(PluginRuntime::Docker(_)) => Ok(StopAction::StopContainer),
        Some(PluginRuntime::File(_)) => Ok(StopAction::StopTask),
    }
}

/// The runtime entries after a stop: without the entry of the name, unless it
/// is that of a built-in.
pub open spec fn entries_after_stop(entries: Seq<RuntimeEntry>, name: Seq<char>) -> Seq<
    RuntimeEntry,
> {
    match runtime_of(entries, name) {
        Some(PluginRuntime::Docker(_)) | Some(PluginRuntime::File(_)) => without(entries, name),
        _ => entries,
    }
}

/// What asking after a plugin is answered with. A built-in always runs, since
/// the registry was made. A started plugin needs its backend asked. A name
/// with a row and no runtime entry does not run; a name without either is
/// `NotFound`.
pub open spec fn status_result(
    rows: Seq<Plugin>,
    entries: Seq<RuntimeEntry>,
    start_time: i64,
    name: Seq<char>,
) -> Result<StatusQuery, ErrorKind> {
    match runtime_of(entries, name) {
        Some(PluginRuntime::BuiltIn) => Ok(
            StatusQuery::Known(
                PluginStatus { running: true, should_be_running: true, started: Some(start_time) },
            ),
        ),
        Some(PluginRuntime::Docker(metadata)) => Ok(StatusQuery::Container(metadata)),
        Some(PluginRuntime::File(metadata)) => Ok(StatusQuery::Task(metadata)),
        None => if item_of(rows, name) is Some {
            Ok(
                StatusQuery::Known(
                    PluginStatus { running: false, should_be_running: false, started: None },
                ),
            )
        } else {
            Err(ErrorKind::NotFound)
        },
    }
}

/// Whether a started plugin is meant to run: what its entry says, or, where
/// the entry says nothing, whether its row is enabled.
pub open spec fn meant_to_run(metadata: RuntimeMetadata, enabled: i64) -> bool {
    match metadata.run {
        Some(run) => run,
        None => enabled > 0,
    }
}

/// An error of the same kind with a label before its message.
pub fn tagged(label: &str, e: &Error) -> (out: Error)
    ensures
        out.kind == e.kind,
        out.message@ == label@ + e.message@,
{
    Error::new(e.kind, String::from_str(label).concat(e.message.as_str()))
}

impl PluginManager {
    /// Starts a plugin. A name with a runtime entry is refused with
    /// `AlreadyExists`. For a container or a file plugin the runtime entry is
    /// made at once, and the caller launches the backend: if that fails, the
    /// caller hands the failure to `abandon_start`. A built-in or invalid type
    /// is accepted with nothing to do and no entry made; a Rust project is
    /// refused with `Unsupported`.
    pub fn start(&mut self, plugin: &Plugin, now: i64) -> (out: Result<StartAction, Error>)
        requires
            old(self).wf(),
        ensures
            final(self).wf(),
            by_kind(out) == start_result(old(self).entries(), *plugin),
            builtin_name(plugin.name@) ==> (out matches Err(e) && e.kind
                == ErrorKind::AlreadyExists),
            final(self).entries() == (if out is Ok {
                entries_after_start(old(self).entries(), *plugin, now)
            } else {
                old(self).entries()
            }),
            forall|name: Seq<char>|
                #[trigger] runtime_of(final(self).entries(), name) == (if out is Ok && name
                    == plugin.name@ {
                    started_runtime(plugin.plugin_type, now)
                } else {
                    runtime_of(old(self).entries(), name)
                }),
            final(self).rows() == old(self).rows(),
            final(self).catalog() == old(self).catalog(),
            final(self).started_at() == old(self).started_at(),
            final(self).bin_root() == old(self).bin_root(),
    {
        proof {
            assert(builtin_name(plugin.name@) ==> runtime_of(self.entries(), plugin.name@) is Some);
        }
        if find(&self.plugin_runtimes, plugin.name.as_str()).is_some() {
            return Err(
                Error::new(ErrorKind::AlreadyExists, String::from_str("Plugin Already Running")),
            );
        }
        let (action, runtime) = match plugin.plugin_type {
            PluginType::BuiltIn => { return Ok(StartAction::Nothing); },
            PluginType::Invalid => { return Ok(StartAction::Nothing); },
            PluginType::RustProject => {
                return match start_rust_plugin(plugin) {
                    Err(e) => Err(e),
                    Ok(_) => Ok(StartAction::Nothing),
                };
            },
            PluginType::Docker => (
                StartAction::LaunchContainer,
                PluginRuntime::Docker(
                    RuntimeMetadata { run: Some(true), has_task: false, started: now },
                ),
            ),
            PluginType::File => (
                StartAction::LaunchFile,
                PluginRuntime::File(
                    RuntimeMetadata { run: Some(true), has_task: true, started: now },
                ),
            ),
        };
        let entry = RuntimeEntry { name: plugin.name.clone(), runtime };
        proof {
            started_entry_keeps_builtins(self.plugin_runtimes@, entry);
            push_keeps_names(self.plugin_runtimes@, entry);
            assert forall|name: Seq<char>|
                #[trigger] runtime_of(self.plugin_runtimes@.push(entry), name) == (if name
                    == plugin.name@ {
                    started_runtime(plugin.plugin_type, now)
                } else {
                    runtime_of(self.plugin_runtimes@, name)
                }) by {
                assert(item_of(self.plugin_runtimes@.push(entry), name) == (if name == entry.key() {
                    Some(entry)
                } else {
                    item_of(self.plugin_runtimes@, name)
                }));
            }
        }
        self.plugin_runtimes.push(entry);
        Ok(action)
    }

    /// Takes back the runtime entry that `start` made, after the launch of the
    /// backend failed: the plugin is then as it was before the start. The entry
    /// of a built-in stays.
    pub fn abandon_start(&mut self, plugin: &Plugin)
        requires
            old(self).wf(),
        ensures
            final(self).wf(),
            final(self).entries() == entries_after_stop(old(self).entries(), plugin.name@),
            forall|name: Seq<char>|
                #[trigger] runtime_of(final(self).entries(), name) == (if name == plugin.name@
                    && runtime_of(old(self).entries(), name) != Some(PluginRuntime::BuiltIn) {
                    None
                } else {
                    runtime_of(old(self).entries(), name)
                }),
            final(self).rows() == old(self).rows(),
            final(self).catalog() == old(self).catalog(),
            final(self).started_at() == old(self).started_at(),
            final(self).bin_root() == old(self).bin_root(),
    {
        proof {
            stop_changes_one_name(self.plugin_runtimes@, plugin.name@);
        }
        match find(&self.plugin_runtimes, plugin.name.as_str()) {
            Some(i) => {
                match self.plugin_runtimes[i].runtime {
                    PluginRuntime::BuiltIn => {},
                    _ => {
                        proof {
                            stopped_entry_keeps_builtins(self.plugin_runtimes@, plugin.name@);
                        }
                        self.plugin_runtimes.remove(i);
                    },
                }
            },
            None => {},
        }
    }

    /// Stops a plugin. A name without a runtime entry is answered with
    /// `NotRunning`, and nothing changes. A built-in is refused with
    /// `PermissionDenied`, and keeps its entry. The entry of a container or a
    /// file plugin is taken out, and the caller releases the backend.
    pub fn stop(&mut self, plugin: &Plugin) -> (out: Result<StopAction, Error>)
        requires
            old(self).wf(),
        ensures
            final(self).wf(),
            by_kind(out) == stop_result(old(self).entries(), plugin.name@),
            final(self).entries() == entries_after_stop(old(self).entries(), plugin.name@),
            forall|name: Seq<char>|
                #[trigger] runtime_of(final(self).entries(), name) == (if name == plugin.name@
                    && runtime_of(old(self).entries(), name) != Some(PluginRuntime::BuiltIn) {
                    None
                } else {
                    runtime_of(old(self).entries(), name)
                }),
            runtime_of(old(self).entries(), plugin.name@) is None ==> out == Ok::<
                StopAction,
                Error,
            >(StopAction::NotRunning) && final(self).entries() == old(self).entries(),
            final(self).rows() == old(self).rows(),
            final(self).catalog() == old(self).catalog(),
            final(self).started_at() == old(self).started_at(),
            final(self).bin_root() == old(self).bin_root(),
    {
        proof {
            stop_changes_one_name(self.plugin_runtimes@, plugin.name@);
        }
        match find(&self.plugin_runtimes, plugin.name.as_str()) {
            Some(i) => {
                let action = match self.plugin_runtimes[i].runtime {
                    PluginRuntime::BuiltIn => {
                        return Err(
                            Error::new(
                                ErrorKind::PermissionDenied,
                                String::from_str("Built In Plugins Cant Be Stopped"),
                            ),
                        );
                    },
                    PluginRuntime::Docker(_) => StopAction::StopContainer,
                    PluginRuntime::File(_) => StopAction::StopTask,
                };
                proof {
                    stopped_entry_keeps_builtins(self.plugin_runtimes@, plugin.name@);
                }
                self.plugin_runtimes.remove(i);
                Ok(action)
            },
            None => Ok(StopAction::NotRunning),
        }
    }

    /// The status of a plugin, or what the caller has to ask of its backend.
    pub fn status(&self, plugin: &Plugin) -> (out: Result<StatusQuery, Error>)
        requires
            self.wf(),
        ensures
            by_kind(out) == status_result(
                self.rows(),
                self.entries(),
                self.started_at(),
                plugin.name@,
            ),
    {
        match find(&self.plugin_runtimes, plugin.name.as_str()) {
            Some(i) => match self.plugin_runtimes[i].runtime {
                PluginRuntime::BuiltIn => Ok(
                    StatusQuery::Known(
                        PluginStatus {
                            running: true,
                            should_be_running: true,
                            started: Some(self.start_time),
                        },
                    ),
                ),
                PluginRuntime::Docker(metadata) => Ok(StatusQuery::Container(metadata)),
                PluginRuntime::File(metadata) => Ok(StatusQuery::Task(metadata)),
            },
            None => {
                if find(&self.plugins, plugin.name.as_str()).is_some() {
                    Ok(
                        StatusQuery::Known(
                            PluginStatus {
                                running: false,
                                should_be_running: false,
                                started: None,
                            },
                        ),
                    )
                } else {
                    Err(Error::new(ErrorKind::NotFound, String::from_str("Plugin Does Not Exist")))
                }
            },
        }
    }
}

/// A stop changes what is recorded under the name of the stopped plugin, and
/// under no other name.
pub proof fn stop_changes_one_name(entries: Seq<RuntimeEntry>, gone: Seq<char>)
    requires
        unique(entries),
    ensures
        forall|name: Seq<char>|
            #[trigger] runtime_of(entries_after_stop(entries, gone), name) == (if name == gone
                && runtime_of(entries, name) != Some(PluginRuntime::BuiltIn) {
                None
            } else {
                runtime_of(entries, name)
            }),
{
    without_keeps_names(entries, gone);
    assert forall|name: Seq<char>|
        #[trigger] runtime_of(entries_after_stop(entries, gone), name) == (if name == gone
            && runtime_of(entries, name) != Some(PluginRuntime::BuiltIn) {
            None
        } else {
            runtime_of(entries, name)
        }) by {
        assert(item_of(without(entries, gone), name) == (if name == gone {
            None
        } else {
            item_of(entries, name)
        }));
    }
}

/// Taking the entry of a stopped plugin out keeps the names unique and leaves
/// the built-in entries to the built-in names.
pub proof fn stopped_entry_keeps_builtins(entries: Seq<RuntimeEntry>, name: Seq<char>)
    requires
        unique(entries),
        runtime_of(entries, name) != Some(PluginRuntime::BuiltIn),
        forall|other: Seq<char>|
            builtin_name(other) <==> #[trigger] runtime_of(entries, other) == Some(
                PluginRuntime::BuiltIn,
            ),
    ensures
        unique(without(entries, name)),
        forall|other: Seq<char>|
            builtin_name(other) <==> #[trigger] runtime_of(without(entries, name), other) == Some(
                PluginRuntime::BuiltIn,
            ),
{
    without_keeps_names(entries, name);
    assert forall|other: Seq<char>|
        builtin_name(other) <==> #[trigger] runtime_of(without(entries, name), other) == Some(
            PluginRuntime::BuiltIn,
        ) by {
        assert(builtin_name(other) <==> runtime_of(entries, other) == Some(PluginRuntime::BuiltIn));
        assert(item_of(without(entries, name), other) == (if other == name {
            None
        } else {
            item_of(entries, other)
        }));
    }
}

/// Adding the entry of a started plugin under a new name keeps the names
/// unique and leaves the built-in entries to the built-in names.
pub proof fn started_entry_keeps_builtins(entries: Seq<RuntimeEntry>, entry: RuntimeEntry)
    requires
        unique(entries),
        !holds(entries, entry.name@),
        entry.runtime != PluginRuntime::BuiltIn,
        forall|name: Seq<char>|
            builtin_name(name) <==> #[trigger] runtime_of(entries, name) == Some(
                PluginRuntime::BuiltIn,
            ),
    ensures
        unique(entries.push(entry)),
        forall|name: Seq<char>|
            builtin_name(name) <==> #[trigger] runtime_of(entries.push(entry), name) == Some(
                PluginRuntime::BuiltIn,
            ),
{
    push_keeps_names(entries, entry);
    assert forall|name: Seq<char>|
        builtin_name(name) <==> #[trigger] runtime_of(entries.push(entry), name) == Some(
            PluginRuntime::BuiltIn,
        ) by {
        assert(builtin_name(name) <==> runtime_of(entries, name) == Some(PluginRuntime::BuiltIn));
        assert(item_of(entries.push(entry), name) == (if name == entry.name@ {
            Some(entry)
        } else {
            item_of(entries, name)
        }));
    }
}

/// Whether the state that the container engine reports is that of a
/// container that runs: any state but `exited`, whatever its case, and no
/// state at all.
pub open spec fn state_runs(state: Option<String>) -> bool {
    match state {
        Some(text) => lower_text(text@) != "exited"@,
        None => true,
    }
}

/// The status of a container plugin from what the engine lists under its name.
pub open spec fn container_status_spec(
    metadata: RuntimeMetadata,
    enabled: i64,
    listed: Seq<ContainerSummary>,
) -> PluginStatus {
    if listed.len() == 0 {
        PluginStatus { running: false, should_be_running: false, started: None }
    } else {
        PluginStatus {
            running: state_runs(listed[0].state),
            should_be_running: meant_to_run(metadata, enabled),
            started: Some(metadata.started),
        }
    }
}

/// The status of a container plugin, from its runtime entry, the `enabled`
/// value of its row and what listing the containers of its name gave. No
/// container means that it does not run; otherwise the first one decides. A
/// failure to list is handed back as `Other`, under the label
/// `Failed to Fetch Plugin Status: `.
pub fn container_status(
    metadata: &RuntimeMetadata,
    enabled: i64,
    listed: Result<Vec<ContainerSummary>, Error>,
) -> (out: Result<PluginStatus, Error>)
    ensures
        match listed {
            Ok(containers) => out == Ok::<PluginStatus, Error>(
                container_status_spec(*metadata, enabled, containers@),
            ),
            Err(e) => out matches Err(failure) && failure.kind == ErrorKind::Other
                && failure.message@ == "Failed to Fetch Plugin Status: "@ + e.message@,
        },
{
    match listed {
        Ok(containers) => {
            if containers.len() == 0 {
                Ok(PluginStatus { running: false, should_be_running: false, started: None })
            } else {
                let running = match &containers[0].state {
                    Some(text) => !same_text(text.as_str().to_ascii_lowercase().as_str(), "exited"),
                    None => true,
                };
                let should_be_running = match metadata.run {
                    Some(run) => run,
                    None => enabled > 0,
                };
                Ok(PluginStatus { running, should_be_running, started: Some(metadata.started) })
            }
        },
        Err(e) => Err(
            Error::new(
                ErrorKind::Other,
                String::from_str("Failed to Fetch Plugin Status: ").concat(e.message.as_str()),
            ),
        ),
    }
}

/// The status of a file plugin, from its runtime entry, the `enabled` value
/// of its row and whether its supervising task has finished: it runs while it
/// has a task that has not finished.
pub fn task_status(metadata: &RuntimeMetadata, enabled: i64, finished: bool) -> (out: PluginStatus)
    ensures
        out == (PluginStatus {
            running: metadata.has_task && !finished,
            should_be_running: meant_to_run(*metadata, enabled),
            started: Some(metadata.started),
        }),
{
    let should_be_running = match metadata.run {
        Some(run) => run,
        None => enabled > 0,
    };
    PluginStatus {
        running: metadata.has_task && !finished,
        should_be_running,
        started: Some(metadata.started),
    }
}

/// What stopping a container plugin comes to, from what stopping and then
/// removing its container gave. Both were tried; the first failure is handed
/// back, with its kind and under the label of its step.
pub fn container_stop_result(stopped: Result<(), Error>, removed: Result<(), Error>) -> (out:
    Result<bool, Error>)
    ensures
        match (stopped, removed) {
            (Err(e), _) => out matches Err(failure) && failure.kind == e.kind && failure.message@
                == "Failed to stop docker container: "@ + e.message@,
            (Ok(_), Err(e)) => out matches Err(failure) && failure.kind == e.kind
                && failure.message@ == "Failed to remove docker container: "@ + e.message@,
            (Ok(_), Ok(_)) => out == Ok::<bool, Error>(true),
        },
{
    match stopped {
        Err(e) => Err(tagged("Failed to stop docker container: ", &e)),
        Ok(_) => match removed {
            Err(e) => Err(tagged("Failed to remove docker container: ", &e)),
            Ok(_) => Ok(true),
        },
    }
}

/// What stopping a file plugin comes to, from how its supervising task
/// ended. A task that could not be joined is no failure of the stop; an error
/// of the task itself is handed back, with its kind and under the label
/// `Failed in plugin: `.
pub fn task_stop_result(outcome: TaskOutcome) -> (out: Result<bool, Error>)
    ensures
        match outcome {
            TaskOutcome::Finished => out == Ok::<bool, Error>(true),
            TaskOutcome::JoinFailed(_) => out == Ok::<bool, Error>(true),
            TaskOutcome::Failed(e) => out matches Err(failure) && failure.kind == e.kind
                && failure.message@ == "Failed in plugin: "@ + e.message@,
        },
{
    match outcome {
        TaskOutcome::Finished => Ok(true),
        TaskOutcome::JoinFailed(_) => Ok(true),
        TaskOutcome::Failed(e) => Err(tagged("Failed in plugin: ", &e)),
    }
}

/// The runtime entries after a number of starts of one plugin, one after the
/// other and with no stop between them.
pub open spec fn entries_after_starts(
    entries: Seq<RuntimeEntry>,
    plugin: Plugin,
    now: i64,
    times: nat,
) -> Seq<RuntimeEntry>
    decreases times,
{
    if times == 0 {
        entries
    } else {
        entries_after_start(
            entries_after_starts(entries, plugin, now, (times - 1) as nat),
            plugin,
            now,
        )
    }
}

/// How many of a number of starts of one plugin, one after the other and with
/// no stop between them, are accepted.
pub open spec fn accepted_starts(
    entries: Seq<RuntimeEntry>,
    plugin: Plugin,
    now: i64,
    times: nat,
) -> nat
    decreases times,
{
    if times == 0 {
        0
    } else {
        let earlier = (times - 1) as nat;
        accepted_starts(entries, plugin, now, earlier) + (if start_result(
            entries_after_starts(entries, plugin, now, earlier),
            plugin,
        ) is Ok {
            1nat
        } else {
            0nat
        })
    }
}

/// A container or a file plugin without a runtime entry is started once: the
/// first start is accepted, and a second start without a stop between them is
/// refused with `AlreadyExists`.
pub proof fn second_start_is_refused(entries: Seq<RuntimeEntry>, plugin: Plugin, now: i64)
    requires
        unique(entries),
        runtime_of(entries, plugin.name@) is None,
        plugin.plugin_type == PluginType::Docker || plugin.plugin_type == PluginType::File,
    ensures
        start_result(entries, plugin) is Ok,
        start_result(entries_after_start(entries, plugin, now), plugin) == Err::<
            StartAction,
            ErrorKind,
        >(ErrorKind::AlreadyExists),
{
    let runtime = started_runtime(plugin.plugin_type, now)->0;
    let entry = RuntimeEntry { name: plugin.name, runtime };
    let after = entries.push(entry);
    assert(entries_after_start(entries, plugin, now) == after);
    assert(after[entries.len() as int].key() == plugin.name@);
}

/// However many starts of a container or a file plugin follow one another
/// with no stop between them, exactly one is accepted and exactly one runtime
/// entry is made: after the first start every further one is refused with
/// `AlreadyExists` and leaves the entries as they are.
pub proof fn one_start_among_many(
    entries: Seq<RuntimeEntry>,
    plugin: Plugin,
    now: i64,
    times: nat,
)
    requires
        unique(entries),
        runtime_of(entries, plugin.name@) is None,
        plugin.plugin_type == PluginType::Docker || plugin.plugin_type == PluginType::File,
        times >= 1,
    ensures
        entries_after_starts(entries, plugin, now, times) == entries_after_start(
            entries,
            plugin,
            now,
        ),
        start_result(entries_after_starts(entries, plugin, now, times), plugin) == Err::<
            StartAction,
            ErrorKind,
        >(ErrorKind::AlreadyExists),
        entries_after_starts(entries, plugin, now, times).len() == entries.len() + 1,
        accepted_starts(entries, plugin, now, times) == 1,
    decreases times,
{
    second_start_is_refused(entries, plugin, now);
    if times > 1 {
        one_start_among_many(entries, plugin, now, (times - 1) as nat);
    } else {
        assert(entries_after_starts(entries, plugin, now, 0) == entries);
        assert(accepted_starts(entries, plugin, now, 0) == 0);
    }
}

/// A start whose launch failed leaves nothing behind: once the start is
/// abandoned, the runtime entries are what they were before it.
pub proof fn abandoned_start_leaves_no_entry(entries: Seq<RuntimeEntry>, plugin: Plugin, now: i64)
    requires
        unique(entries),
        runtime_of(entries, plugin.name@) is None,
    ensures
        entries_after_stop(entries_after_start(entries, plugin, now), plugin.name@) == entries,
{
    match started_runtime(plugin.plugin_type, now) {
        Some(runtime) => {
            let entry = RuntimeEntry { name: plugin.name, runtime };
            let after = entries.push(entry);
            push_keeps_names(entries, entry);
            assert(after[entries.len() as int].key() == plugin.name@);
            crate::named::position_is_the_place(after, plugin.name@, entries.len() as int);
            assert(after.remove(entries.len() as int) == entries);
        },
        None => {},
    }
}

/// A stop of a name without a runtime entry is answered with `NotRunning`,
/// never with an error, and leaves the entries as they are.
pub proof fn stop_without_entry_is_no_error(entries: Seq<RuntimeEntry>, name: Seq<char>)
    requires
        runtime_of(entries, name) is None,
    ensures
        stop_result(entries, name) == Ok::<StopAction, ErrorKind>(StopAction::NotRunning),
        entries_after_stop(entries, name) == entries,
{
}

/// A built-in always runs and can be neither started nor stopped: its status
/// is known and says that it runs, a start is refused with `AlreadyExists`, a
/// stop with `PermissionDenied`, and neither changes the runtime entries.
pub proof fn builtins_always_run(registry: &PluginManager, plugin: Plugin, now: i64)
    requires
        registry.wf(),
        builtin_name(plugin.name@),
    ensures
        status_result(registry.rows(), registry.entries(), registry.started_at(), plugin.name@)
            == Ok::<StatusQuery, ErrorKind>(
            StatusQuery::Known(
                PluginStatus {
                    running: true,
                    should_be_running: true,
                    started: Some(registry.started_at()),
                },
            ),
        ),
        start_result(registry.entries(), plugin) == Err::<StartAction, ErrorKind>(
            ErrorKind::AlreadyExists,
        ),
        stop_result(registry.entries(), plugin.name@) == Err::<StopAction, ErrorKind>(
            ErrorKind::PermissionDenied,
        ),
        entries_after_start(registry.entries(), plugin, now) == registry.entries(),
        entries_after_stop(registry.entries(), plugin.name@) == registry.entries(),
{
    assert(runtime_of(registry.entries(), plugin.name@) == Some(PluginRuntime::BuiltIn));
}

} // verus!
