//! The file backend: where the executable of a plugin lives, where it is
//! fetched from, how it is run, and when its supervising task ends.

use crate::error::Error;
use crate::models::plugins::Plugin;
use crate::plugins::runtime::tagged;
use crate::text::{chars_of, join_path, joined, push_squeezed, squeeze_slashes, squeezed_has_no_pair};
use vstd::prelude::*;
use vstd::string::*;

verus! {

/// The mode of a fetched executable: read and run for all, write for the
/// owner (octal 755).
pub const EXECUTABLE_MODE: u32 = 493;

/// How long the supervising task waits between two looks at the flag that
/// tells it to end, in milliseconds.
pub const SUPERVISION_INTERVAL_MILLIS: u64 = 100;

/// What it takes to run the executable of a plugin.
#[derive(Clone, Debug)]
pub struct FileLaunch {
    /// The folder in which the executable lives and runs.
    pub working_directory: String,
    /// The executable.
    pub file_path: String,
    /// Where the executable is fetched from when it is not there.
    pub url: String,
    /// The command that runs the plugin.
    pub command: String,
    /// The mode that a fetched executable is given.
    pub mode: u32,
}

/// The folder of a plugin under the folder of all plugins.
pub fn plugin_directory(bin_folder: &str, plugin: &Plugin) -> (out: String)
    ensures
        out@ == joined(bin_folder@, plugin.name@),
{
    join_path(bin_folder, plugin.name.as_str())
}

/// The first place at or after `from` that holds a slash; the length of the
/// text where there is none.
pub open spec fn first_slash(s: Seq<char>, from: int) -> int
    decreases s.len() - from,
{
    if from < 0 || from >= s.len() {
        s.len() as int
    } else if s[from] == '/' {
        from
    } else {
        first_slash(s, from + 1)
    }
}

/// The place behind the scheme of an address: behind the `://` that its first
/// slash belongs to, where a name stands before that. Zero where the address
/// has no scheme.
pub open spec fn scheme_end(s: Seq<char>) -> int {
    let slash = first_slash(s, 0);
    if 1 < slash && slash + 1 < s.len() && s[slash - 1] == ':' && s[slash + 1] == '/' {
        slash + 2
    } else {
        0
    }
}

/// An address with its duplicate separators made one: the scheme stays as it
/// is, and behind it each run of slashes is one slash.
pub open spec fn normalized_address(s: Seq<char>) -> Seq<char> {
    s.take(scheme_end(s)) + squeeze_slashes(s.skip(scheme_end(s)))
}

/// Where the executable of a plugin is fetched from: its repository, tag and
/// source with slashes between them, as a normalized address.
pub open spec fn download_url(plugin: Plugin) -> Seq<char> {
    normalized_address(plugin.repo@ + seq!['/'] + plugin.tag@ + seq!['/'] + plugin.source@)
}

/// Behind its scheme a normalized address holds no two slashes side by side.
pub proof fn normalized_has_no_duplicate(s: Seq<char>)
    ensures
        forall|i: int|
            scheme_end(s) <= i && i + 1 < normalized_address(s).len() ==> !(
            #[trigger] normalized_address(s)[i] == '/' && normalized_address(s)[i + 1] == '/'),
        normalized_address(s).take(scheme_end(s)) == s.take(scheme_end(s)),
{
    let end = scheme_end(s);
    let tail = squeeze_slashes(s.skip(end));
    let out = normalized_address(s);
    squeezed_has_no_pair(s.skip(end));
    first_slash_bounds(s, 0);
    assert(s.take(end).len() == end);
    assert forall|i: int| end <= i && i + 1 < out.len() implies !(#[trigger] out[i] == '/' && out[i
        + 1] == '/') by {
        assert(out[i] == tail[i - end]);
        assert(out[i + 1] == tail[i - end + 1]);
    }
    assert(out.take(end) =~= s.take(end));
}

/// The first slash stands at or after the place where the search began, and
/// inside the text or at its end.
pub proof fn first_slash_bounds(s: Seq<char>, from: int)
    requires
        0 <= from <= s.len(),
    ensures
        from <= first_slash(s, from) <= s.len(),
    decreases s.len() - from,
{
    if from < s.len() && s[from] != '/' {
        first_slash_bounds(s, from + 1);
    }
}

/// An address with its duplicate separators made one.
pub fn normalize_address(text: &str) -> (out: String)
    ensures
        out@ == normalized_address(text@),
{
    let chars = chars_of(text);
    let mut slash: usize = 0;
    while slash < chars.len() && chars[slash] != '/'
        invariant
            slash <= chars.len(),
            first_slash(chars@, slash as int) == first_slash(chars@, 0),
        decreases chars.len() - slash,
    {
        slash += 1;
    }
    let end: usize = if 1 < slash && slash < chars.len() - 1 && chars[slash - 1] == ':' && chars[slash
        + 1] == '/' {
        slash + 2
    } else {
        0
    };
    let mut out = String::new();
    let mut i: usize = 0;
    while i < end
        invariant
            i <= end <= chars.len(),
            out@ == chars@.take(i as int),
        decreases end - i,
    {
        out.push(chars[i]);
        proof {
            assert(chars@.take(i + 1) == chars@.take(i as int).push(chars@[i as int]));
        }
        i += 1;
    }
    push_squeezed(&mut out, &chars, end);
    out
}

/// The command that runs a plugin: the one that its row gives, or its name.
pub open spec fn run_command_of(plugin: Plugin) -> Seq<char> {
    match plugin.run_command {
        Some(command) => command@,
        None => plugin.name@,
    }
}

/// What it takes to run the executable of a file plugin whose folder is
/// `working_directory`: the executable has the name of the plugin and lives
/// in that folder.
pub fn start_file_plugin(working_directory: &str, plugin: &Plugin) -> (out: FileLaunch)
    ensures
        out.working_directory@ == working_directory@,
        out.file_path@ == joined(working_directory@, plugin.name@),
        out.url@ == download_url(*plugin),
        out.command@ == run_command_of(*plugin),
        out.mode == EXECUTABLE_MODE,
{
    let mut address = plugin.repo.clone();
    address.push('/');
    address.append(plugin.tag.as_str());
    address.push('/');
    address.append(plugin.source.as_str());
    proof {
        assert(address@ == plugin.repo@ + seq!['/'] + plugin.tag@ + seq!['/'] + plugin.source@);
    }
    let url = normalize_address(address.as_str());
    let command = match &plugin.run_command {
        Some(command) => command.clone(),
        None => plugin.name.clone(),
    };
    FileLaunch {
        working_directory: String::from_str(working_directory),
        file_path: join_path(working_directory, plugin.name.as_str()),
        url,
        command,
        mode: EXECUTABLE_MODE,
    }
}

/// A step of launching the executable of a plugin.
#[derive(Clone, Copy, Debug, PartialEq, Eq, Structural)]
pub enum FileStep {
    /// Look whether the executable is there.
    Probe,
    /// Create the folder of the plugin.
    CreateDirectory,
    /// Fetch the executable.
    Fetch,
    /// Write what was fetched to the executable's path.
    Write,
    /// Give the executable its mode.
    MakeExecutable,
    /// Run the command under a supervising task.
    Spawn,
}

/// Where the launch of an executable stands after a step.
#[derive(Clone, Debug)]
pub enum FileProgress {
    /// This step is to be done next.
    Next(FileStep),
    /// The plugin runs under its supervising task.
    Launched,
    /// The launch is given up with this error.
    Aborted(Error),
}

/// The label under which the failure of a step is reported; fetching and
/// writing have one, the other steps report the failure as it is.
pub open spec fn file_step_label(step: FileStep) -> Seq<char> {
    match step {
        FileStep::Fetch => "Failed to fetch file: "@,
        FileStep::Write => "Failed to read file from response: "@,
        _ => ""@,
    }
}

/// The step that follows a step that went well. `present` says whether the
/// probe found the executable; it is read after `Probe` only. Nothing follows
/// `Spawn`.
pub open spec fn file_step_after(step: FileStep, present: bool) -> Option<FileStep> {
    match step {
        FileStep::Probe => if present {
            Some(FileStep::Spawn)
        } else {
            Some(FileStep::CreateDirectory)
        },
        FileStep::CreateDirectory => Some(FileStep::Fetch),
        FileStep::Fetch => Some(FileStep::Write),
        FileStep::Write => Some(FileStep::MakeExecutable),
        FileStep::MakeExecutable => Some(FileStep::Spawn),
        FileStep::Spawn => None,
    }
}

/// One step on the way of launching the executable of a file plugin: from
/// the step that was done and what it gave to what comes next. An executable
/// that is there is run as it is; one that is not is fetched first: its
/// folder is made, it is fetched, written and made executable. The failure of
/// any step gives the launch up.
pub fn file_launch_step(step: FileStep, outcome: Result<bool, Error>) -> (out: FileProgress)
    ensures
        match outcome {
            Err(e) => out matches FileProgress::Aborted(failure) && failure.kind == e.kind
                && failure.message@ == file_step_label(step) + e.message@,
            Ok(present) => match file_step_after(step, present) {
                Some(next) => out matches FileProgress::Next(s) && s == next,
                None => out is Launched,
            },
        },
{
    match outcome {
        Err(e) => {
            let label = match step {
                FileStep::Fetch => "Failed to fetch file: ",
                FileStep::Write => "Failed to read file from response: ",
                _ => "",
            };
            FileProgress::Aborted(tagged(label, &e))
        },
        Ok(present) => match step {
            FileStep::Probe => if present {
                FileProgress::Next(FileStep::Spawn)
            } else {
                FileProgress::Next(FileStep::CreateDirectory)
            },
            FileStep::CreateDirectory => FileProgress::Next(FileStep::Fetch),
            FileStep::Fetch => FileProgress::Next(FileStep::Write),
            FileStep::Write => FileProgress::Next(FileStep::MakeExecutable),
            FileStep::MakeExecutable => FileProgress::Next(FileStep::Spawn),
            FileStep::Spawn => FileProgress::Launched,
        },
    }
}

/// What the supervising task does next.
#[derive(Clone, Copy, Debug, PartialEq, Eq, Structural)]
pub enum Supervision {
    /// Wait this many milliseconds, then look again.
    Wait(u64),
    /// End the task; the process is let go with it.
    Finish,
}

/// What the supervising task of a file plugin does next, from whether the
/// process has ended and whether the plugin is still meant to run. The task
/// ends when the process has ended, however it ended, or when the plugin is
/// no longer meant to run; until then it looks again after the interval.
pub fn supervise(exited: bool, run: bool) -> (out: Supervision)
    ensures
        out == (if exited || !run {
            Supervision::Finish
        } else {
            Supervision::Wait(SUPERVISION_INTERVAL_MILLIS)
        }),
{
    if exited || !run {
        Supervision::Finish
    } else {
        Supervision::Wait(SUPERVISION_INTERVAL_MILLIS)
    }
}

} // verus!
