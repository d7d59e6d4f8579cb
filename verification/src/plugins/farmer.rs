//! The supervisor of the farmer binary: its configuration, its update from
//! the remote manifest, its process and the relays to its local endpoints.

use crate::error::{Error, ErrorKind};
use crate::text::{
    after_word, chars_of, decimal, lower_text, next_word, push_decimal, same_text, word_at,
};
use crate::version::{semver_parse, version_order, version_text, Precedence, Version, VersionView};
use vstd::prelude::*;
use vstd::string::*;

verus! {

/// Whether plots are read in parallel where the configuration does not say.
pub fn default_parallel_read() -> (out: bool)
    ensures
        out,
{
    true
}

/// How deep plot folders are searched where the configuration does not say.
pub fn default_plot_search_depth() -> (out: i64)
    ensures
        out == 0,
{
    0
}

/// The number of processor cores where the configuration does not say: no
/// limit.
pub fn default_max_cpu_cores() -> (out: i32)
    ensures
        out == -1,
{
    -1
}

/// The number of CUDA devices where the configuration does not say: no limit.
pub fn default_max_cuda_devices() -> (out: i32)
    ensures
        out == -1,
{
    -1
}

/// The number of OpenCL devices where the configuration does not say: no
/// limit.
pub fn default_max_opencl_devices() -> (out: i32)
    ensures
        out == -1,
{
    -1
}

/// The port of the recompute server where the configuration does not say:
/// none.
pub fn default_recompute() -> (out: u16)
    ensures
        out == 0,
{
    0
}

/// The harvester's part of the farmer configuration.
#[derive(Debug, Clone, PartialEq, Eq)]
pub struct HarvesterConfig {
    pub plot_directories: Vec<String>,
    pub parallel_read: bool,
    pub plot_search_depth: i64,
    pub max_cpu_cores: i32,
    pub max_cuda_devices: i32,
    pub max_opencl_devices: i32,
    pub cuda_device_list: Vec<u8>,
    pub opencl_device_list: Vec<u8>,
    pub recompute_host: String,
    pub recompute_port: u16,
}

impl Default for HarvesterConfig {
    /// The configuration of a new installation: plots are searched under
    /// `/mnt`, two folders deep, and read in parallel; no device is limited,
    /// listed or remote.
    fn default() -> (out: Self)
        ensures
            out.plot_directories@.len() == 1,
            out.plot_directories@[0]@ == "/mnt"@,
            out.parallel_read,
            out.plot_search_depth == 2,
            out.max_cpu_cores == -1,
            out.max_cuda_devices == -1,
            out.max_opencl_devices == -1,
            out.cuda_device_list@.len() == 0,
            out.opencl_device_list@.len() == 0,
            out.recompute_host@.len() == 0,
            out.recompute_port == 0,
    {
        let mut plot_directories: Vec<String> = Vec::new();
        plot_directories.push(String::from_str("/mnt"));
        HarvesterConfig {
            plot_directories,
            parallel_read: true,
            plot_search_depth: 2,
            max_cpu_cores: -1,
            max_cuda_devices: -1,
            max_opencl_devices: -1,
            cuda_device_list: Vec::new(),
            opencl_device_list: Vec::new(),
            recompute_host: String::new(),
            recompute_port: 0,
        }
    }
}

/// The state of the farmer process.
#[derive(Clone, Copy, Debug, PartialEq, Eq, Structural)]
pub enum FarmerStatus {
    Unknown,
    Running,
    Stopped,
    Exited(i32),
}

/// What a look at the farmer process gave, without waiting for it.
#[derive(Clone, Copy, Debug, PartialEq, Eq, Structural)]
pub enum ChildPoll {
    /// The process still runs.
    Running,
    /// The process has ended, with this exit code if it has one.
    Exited(Option<i32>),
    /// The look itself failed.
    Failed,
}

/// The track of versions that the farmer binary follows.
#[derive(Clone, Copy, Debug, PartialEq, Eq, Structural)]
pub enum UpdateChannel {
    Release,
    Beta,
}

/// The channel that a stored setting stands for: `Beta` for `beta`, whatever
/// its case; `Release` for everything else and where nothing is stored.
pub open spec fn channel_of(setting: Option<Seq<char>>) -> UpdateChannel {
    match setting {
        Some(value) => if lower_text(value) == "beta"@ {
            UpdateChannel::Beta
        } else {
            UpdateChannel::Release
        },
        None => UpdateChannel::Release,
    }
}

impl UpdateChannel {
    /// The channel that a stored setting stands for.
    pub fn from_setting(setting: Option<&str>) -> (out: UpdateChannel)
        ensures
            out == channel_of(
                match setting {
                    Some(value) => Some(value@),
                    None => None,
                },
            ),
    {
        match setting {
            Some(value) => {
                if same_text(value.to_ascii_lowercase().as_str(), "beta") {
                    UpdateChannel::Beta
                } else {
                    UpdateChannel::Release
                }
            },
            None => UpdateChannel::Release,
        }
    }
}

/// Where the manifest of the farmer binary is fetched from.
pub const FAST_FARMER_MANIFEST_URL: &'static str = "https://builds.druid.garden/manifest.yaml";

/// Where the farmer binary lives.
pub const BIN_PATH: &'static str = "/usr/bin/fast_farmer_gh.app";

/// Where the farmer binary that was live before the last update is kept.
pub const BACKUP_PATH: &'static str = "/usr/bin/fast_farmer_gh.app.bak";

/// Where a fetched farmer binary is put until it has been checked.
pub const TMP_PATH: &'static str = "/tmp/fast_farmer_gh.app";

/// Where the configuration of the running farmer is written.
pub const CONFIG_PATH: &'static str = "/tmp/fast_farmer_config.yaml";

/// The setting that holds the update channel.
pub const CHANNEL_KEY: &'static str = "farmer_update_channel";

/// The remote description of the versions of the farmer binary that can be
/// had.
#[derive(Clone, Debug)]
pub struct FastFarmerManifest {
    pub current_version: Version,
    pub beta_version: Option<Version>,
    pub date: Option<String>,
    pub author: Option<String>,
}

/// The version that a channel aims at: the current version on `Release`; the
/// beta version on `Beta`, or the current version where there is no beta.
pub open spec fn target_of(manifest: FastFarmerManifest, channel: UpdateChannel) -> Version {
    match channel {
        UpdateChannel::Release => manifest.current_version,
        UpdateChannel::Beta => match manifest.beta_version {
            Some(beta) => beta,
            None => manifest.current_version,
        },
    }
}

impl FastFarmerManifest {
    /// The version that a channel aims at.
    pub fn target_version(&self, channel: UpdateChannel) -> (out: &Version)
        ensures
            *out == target_of(*self, channel),
    {
        match channel {
            UpdateChannel::Release => &self.current_version,
            UpdateChannel::Beta => match &self.beta_version {
                Some(beta) => beta,
                None => &self.current_version,
            },
        }
    }
}

/// Whether the binary has to be installed: always where no installed version
/// is known; else unless the installed version is the target or stands above
/// it.
pub open spec fn install_needed(installed: Option<VersionView>, target: VersionView) -> bool {
    match installed {
        None => true,
        Some(version) => !(version_order(version, target) == Some(0int) || version_order(
            version,
            target,
        ) == Some(1int)),
    }
}

/// Whether the binary has to be installed, from the version that the
/// installed binary reports, if there is one and it reports any, and the
/// version that is aimed at.
pub fn should_install(installed: Option<&Version>, target: &Version) -> (out: bool)
    ensures
        out == install_needed(
            match installed {
                Some(version) => Some(version@),
                None => None,
            },
            target@,
        ),
{
    match installed {
        None => true,
        Some(version) => match version.compare(target) {
            Some(Precedence::Same) => false,
            Some(Precedence::Higher) => false,
            _ => true,
        },
    }
}

/// The name of a processor architecture in the download path: `amd64` for
/// `x86_64`, `aarch64` for itself, none for any other.
pub open spec fn arch_token(arch: Seq<char>) -> Option<Seq<char>> {
    if arch == "x86_64"@ {
        Some("amd64"@)
    } else if arch == "aarch64"@ {
        Some("aarch64"@)
    } else {
        None
    }
}

/// The name of a processor architecture in the download path. An
/// architecture for which no binary is built is refused with `Unsupported`.
pub fn download_arch(arch: &str) -> (out: Result<String, Error>)
    ensures
        match arch_token(arch@) {
            Some(token) => out matches Ok(name) && name@ == token,
            None => out matches Err(e) && e.kind == ErrorKind::Unsupported,
        },
{
    if same_text(arch, "x86_64") {
        Ok(String::from_str("amd64"))
    } else if same_text(arch, "aarch64") {
        Ok(String::from_str("aarch64"))
    } else {
        Err(
            Error::new(
                ErrorKind::Unsupported,
                String::from_str("Unsupported Platform for Auto Updates"),
            ),
        )
    }
}

/// Where the binary of a version is fetched from, for an architecture by its
/// name in the download path.
pub open spec fn download_address(version: Seq<char>, token: Seq<char>) -> Seq<char> {
    "https://builds.druid.garden/"@ + version + seq!['/'] + token + "/ff_giga"@
}

/// Where the binary of a version is fetched from on this architecture. An
/// architecture for which no binary is built is refused with `Unsupported`.
pub fn get_download_url(version: &str, arch: &str) -> (out: Result<String, Error>)
    ensures
        match arch_token(arch@) {
            Some(token) => out matches Ok(url) && url@ == download_address(version@, token),
            None => out matches Err(e) && e.kind == ErrorKind::Unsupported,
        },
{
    match download_arch(arch) {
        Ok(token) => {
            let mut url = String::from_str("https://builds.druid.garden/");
            url.append(version);
            url.push('/');
            url.append(token.as_str());
            url.append("/ff_giga");
            Ok(url)
        },
        Err(e) => Err(e),
    }
}

/// The version that the output of the binary's `--version` names: that of
/// the first word where it is a semantic version, else that of the second
/// word, which follows a label. Nothing where neither is one.
pub open spec fn reported_version(output: Seq<char>) -> Option<VersionView> {
    match word_at(output, 0) {
        None => None,
        Some(first) => match semver_parse(first) {
            Some(version) => Some(version),
            None => match word_at(output, after_word(output, 0)) {
                Some(second) => semver_parse(second),
                None => None,
            },
        },
    }
}

/// The version that the binary reports, from what it wrote when it was run
/// with `--version`.
pub fn get_binary_version(output: &str) -> (out: Option<Version>)
    ensures
        match out {
            Some(version) => reported_version(output@) == Some(version@),
            None => reported_version(output@) is None,
        },
{
    let chars = chars_of(output);
    let (first, rest) = next_word(&chars, 0);
    match first {
        None => None,
        Some(word) => {
            match Version::parse(word.as_str()) {
                Some(version) => Some(version),
                None => {
                    let (second, _) = next_word(&chars, rest);
                    match second {
                        Some(word) => Version::parse(word.as_str()),
                        None => None,
                    }
                },
            }
        },
    }
}

/// What the caller of an update is to do next, or how the update ended.
#[derive(Clone, Copy, Debug, PartialEq, Eq, Structural)]
pub enum UpdateStep {
    /// Fetch the manifest.
    FetchManifest,
    /// Read the stored update channel.
    ReadChannel,
    /// Look whether the live binary is there, and ask it for its version.
    ProbeInstalled,
    /// Fetch the binary of the target version to the temporary path.
    Download,
    /// Make the fetched binary executable.
    MakeExecutable,
    /// Ask the fetched binary for its version.
    ProbeDownloaded,
    /// Remove the backup of an earlier update, if there is one.
    RemoveBackup,
    /// Rename the live binary to the backup path.
    RenameLive,
    /// Copy the fetched binary to the live path.
    CopyTemp,
    /// Rename the backup to the live path again, after the copy failed.
    RestoreLive,
    /// The update is over: the binary was installed, or was current already.
    Finished,
    /// The update was given up.
    Failed,
}

/// What a step of an update gave.
#[derive(Debug)]
pub enum UpdateEvent {
    /// The manifest, or why it could not be had.
    Manifest(Result<FastFarmerManifest, Error>),
    /// The stored update channel, if one is stored and could be read.
    Channel(Option<String>),
    /// Whether the live binary is there, and the version that it reports, if
    /// it reports any.
    Installed { present: bool, version: Option<Version> },
    /// The binary was fetched, or not.
    Downloaded(Result<(), Error>),
    /// The fetched binary was made executable, or not.
    MadeExecutable(Result<(), Error>),
    /// The version that the fetched binary reports, if it reports any.
    Probed(Option<Version>),
    /// The earlier backup is out of the way.
    BackupRemoved,
    /// The live binary was renamed, or not.
    Renamed(Result<(), Error>),
    /// The fetched binary was copied to the live path, or not.
    Copied(Result<(), Error>),
    /// The backup was renamed to the live path again, or not.
    Restored(Result<(), Error>),
}

/// An update of the farmer binary, as far as it has come.
#[derive(Clone, Debug)]
pub struct FarmerUpdate {
    /// What is to be done next.
    pub step: UpdateStep,
    /// The name of this architecture in the download path.
    pub arch: String,
    /// The channel that the update follows.
    pub channel: UpdateChannel,
    /// The manifest, once it was fetched.
    pub manifest: Option<FastFarmerManifest>,
    /// The version that is aimed at, once it is known.
    pub target: Option<Version>,
    /// Whether a live binary was there when the update looked.
    pub live_present: bool,
    /// Whether the update has put a new binary in place.
    pub installed: bool,
    /// Why the update was given up, if it was.
    pub failure: Option<Error>,
}

/// Whether a step changes the binaries that are in place.
pub open spec fn is_swap_step(step: UpdateStep) -> bool {
    step == UpdateStep::RemoveBackup || step == UpdateStep::RenameLive || step
        == UpdateStep::CopyTemp || step == UpdateStep::RestoreLive
}

/// Whether a reported version is the version that is aimed at.
pub open spec fn is_target(reported: Option<Version>, target: Option<Version>) -> bool {
    reported matches Some(version) && target matches Some(aim) && version@ == aim@
}

/// The step that follows, from the update as it stands and what its step
/// gave. An event that does not belong to the step gives the update up, as
/// does every failure; an update that is over stays as it is. A live binary
/// that is the target or stands above it ends the update at once. The
/// binaries are touched only when the fetched binary reports the target
/// version; where no live binary was there, there is nothing to back up.
/// Where the live binary was renamed to the backup and the copy does not
/// succeed, the backup is renamed to the live path again before the update
/// is given up.
pub open spec fn next_step(state: FarmerUpdate, event: UpdateEvent) -> UpdateStep {
    match (state.step, event) {
        (UpdateStep::FetchManifest, UpdateEvent::Manifest(Ok(_))) => UpdateStep::ReadChannel,
        (UpdateStep::ReadChannel, UpdateEvent::Channel(_)) => if state.manifest is Some {
            UpdateStep::ProbeInstalled
        } else {
            UpdateStep::Failed
        },
        (UpdateStep::ProbeInstalled, UpdateEvent::Installed { present, version }) => {
            if state.manifest is None {
                UpdateStep::Failed
            } else if present && !install_needed(
                match version {
                    Some(v) => Some(v@),
                    None => None,
                },
                target_of(state.manifest->0, state.channel)@,
            ) {
                UpdateStep::Finished
            } else {
                UpdateStep::Download
            }
        },
        (UpdateStep::Download, UpdateEvent::Downloaded(Ok(_))) => UpdateStep::MakeExecutable,
        (UpdateStep::MakeExecutable, UpdateEvent::MadeExecutable(Ok(_))) => UpdateStep::ProbeDownloaded,
        (UpdateStep::ProbeDownloaded, UpdateEvent::Probed(reported)) => if is_target(
            reported,
            state.target,
        ) {
            if state.live_present {
                UpdateStep::RemoveBackup
            } else {
                UpdateStep::CopyTemp
            }
        } else {
            UpdateStep::Failed
        },
        (UpdateStep::RemoveBackup, UpdateEvent::BackupRemoved) => UpdateStep::RenameLive,
        (UpdateStep::RenameLive, UpdateEvent::Renamed(Ok(_))) => UpdateStep::CopyTemp,
        (UpdateStep::CopyTemp, UpdateEvent::Copied(Ok(_))) => UpdateStep::Finished,
        (UpdateStep::CopyTemp, _) => if state.live_present {
            UpdateStep::RestoreLive
        } else {
            UpdateStep::Failed
        },
        (UpdateStep::Finished, _) => UpdateStep::Finished,
        _ => UpdateStep::Failed,
    }
}

/// The kind of the error with which an update is given up: that of the
/// failure that a step reported; `Other` where the fetched binary reports no
/// version or another one than the target; `InvalidInput` where the event
/// does not belong to the step.
pub open spec fn failure_kind(state: FarmerUpdate, event: UpdateEvent) -> ErrorKind {
    match (state.step, event) {
        (UpdateStep::FetchManifest, UpdateEvent::Manifest(Err(e))) => e.kind,
        (UpdateStep::Download, UpdateEvent::Downloaded(Err(e))) => e.kind,
        (UpdateStep::MakeExecutable, UpdateEvent::MadeExecutable(Err(e))) => e.kind,
        (UpdateStep::ProbeDownloaded, UpdateEvent::Probed(_)) => ErrorKind::Other,
        (UpdateStep::RenameLive, UpdateEvent::Renamed(Err(e))) => e.kind,
        (UpdateStep::CopyTemp, UpdateEvent::Copied(Err(e))) => e.kind,
        _ => ErrorKind::InvalidInput,
    }
}

/// The failure that a step reported as its own result, if it reported one.
pub open spec fn reported_failure(state: FarmerUpdate, event: UpdateEvent) -> Option<Error> {
    match (state.step, event) {
        (UpdateStep::FetchManifest, UpdateEvent::Manifest(Err(e))) => Some(e),
        (UpdateStep::Download, UpdateEvent::Downloaded(Err(e))) => Some(e),
        (UpdateStep::MakeExecutable, UpdateEvent::MadeExecutable(Err(e))) => Some(e),
        (UpdateStep::RenameLive, UpdateEvent::Renamed(Err(e))) => Some(e),
        (UpdateStep::CopyTemp, UpdateEvent::Copied(Err(e))) => Some(e),
        _ => None,
    }
}

/// Whether a step from one place to another is the one at which an update
/// is given up: it goes on to restore the live binary, or ends as failed.
pub open spec fn gives_up(from: UpdateStep, to: UpdateStep) -> bool {
    (to == UpdateStep::Failed || to == UpdateStep::RestoreLive) && from != UpdateStep::Failed
        && from != UpdateStep::RestoreLive
}

impl FarmerUpdate {
    /// An update at its beginning, on the architecture of this name. An
    /// architecture for which no binary is built is refused with
    /// `Unsupported`, before anything is fetched.
    pub fn begin(arch: &str) -> (out: Result<FarmerUpdate, Error>)
        ensures
            match arch_token(arch@) {
                Some(token) => out matches Ok(update) && update.step == UpdateStep::FetchManifest
                    && update.arch@ == token && update.channel == UpdateChannel::Release
                    && update.manifest is None && update.target is None && !update.live_present
                    && !update.installed && update.failure is None,
                None => out matches Err(e) && e.kind == ErrorKind::Unsupported,
            },
    {
        match download_arch(arch) {
            Ok(token) => Ok(
                FarmerUpdate {
                    step: UpdateStep::FetchManifest,
                    arch: token,
                    channel: UpdateChannel::Release,
                    manifest: None,
                    target: None,
                    live_present: false,
                    installed: false,
                    failure: None,
                },
            ),
            Err(e) => Err(e),
        }
    }

    /// Whether the update is over, one way or the other.
    pub fn is_over(&self) -> (out: bool)
        ensures
            out == (self.step == UpdateStep::Finished || self.step == UpdateStep::Failed),
    {
        match self.step {
            UpdateStep::Finished => true,
            UpdateStep::Failed => true,
            _ => false,
        }
    }

    /// Where the binary of the target version is fetched from.
    pub fn download_url(&self) -> (out: Option<String>)
        ensures
            match self.target {
                Some(target) => out matches Some(url) && url@ == download_address(
                    version_text(target@),
                    self.arch@,
                ),
                None => out is None,
            },
    {
        match &self.target {
            Some(target) => {
                let mut url = String::from_str("https://builds.druid.garden/");
                url.append(target.to_string().as_str());
                url.push('/');
                url.append(self.arch.as_str());
                url.append("/ff_giga");
                Some(url)
            },
            None => None,
        }
    }

    fn fail(self, failure: Error) -> (out: FarmerUpdate)
        ensures
            out.step == (if self.step == UpdateStep::CopyTemp && self.live_present {
                UpdateStep::RestoreLive
            } else {
                UpdateStep::Failed
            }),
            out.failure == Some(failure),
            out.arch == self.arch,
            out.channel == self.channel,
            out.manifest == self.manifest,
            out.target == self.target,
            out.live_present == self.live_present,
            out.installed == self.installed,
    {
        let restore = self.live_present && match self.step {
            UpdateStep::CopyTemp => true,
            _ => false,
        };
        FarmerUpdate {
            step: if restore {
                UpdateStep::RestoreLive
            } else {
                UpdateStep::Failed
            },
            arch: self.arch,
            channel: self.channel,
            manifest: self.manifest,
            target: self.target,
            live_present: self.live_present,
            installed: self.installed,
            failure: Some(failure),
        }
    }

    fn at(self, step: UpdateStep) -> (out: FarmerUpdate)
        ensures
            out.step == step,
            out.failure == self.failure,
            out.arch == self.arch,
            out.channel == self.channel,
            out.manifest == self.manifest,
            out.target == self.target,
            out.live_present == self.live_present,
            out.installed == self.installed,
    {
        FarmerUpdate {
            step,
            arch: self.arch,
            channel: self.channel,
            manifest: self.manifest,
            target: self.target,
            live_present: self.live_present,
            installed: self.installed,
            failure: self.failure,
        }
    }

    fn unexpected(self) -> (out: FarmerUpdate)
        ensures
            out.step == (if self.step == UpdateStep::CopyTemp && self.live_present {
                UpdateStep::RestoreLive
            } else {
                UpdateStep::Failed
            }),
            out.failure matches Some(e) && e.kind == ErrorKind::InvalidInput,
            out.arch == self.arch,
            out.channel == self.channel,
            out.manifest == self.manifest,
            out.target == self.target,
            out.live_present == self.live_present,
            out.installed == self.installed,
    {
        self.fail(Error::new(ErrorKind::InvalidInput, String::from_str("Unexpected Update Event")))
    }

    /// Takes in what the step of the update gave, and says what comes next.
    pub fn advance(self, event: UpdateEvent) -> (out: FarmerUpdate)
        ensures
            out.step == next_step(self, event),
            out.arch == self.arch,
            gives_up(self.step, out.step) ==> (out.failure matches Some(e) && e.kind
                == failure_kind(self, event)),
            gives_up(self.step, out.step) ==> (match reported_failure(self, event) {
                Some(reported) => out.failure == Some(reported),
                None => true,
            }),
            !gives_up(self.step, out.step) ==> out.failure == self.failure,
            out.manifest == (match (self.step, event) {
                (UpdateStep::FetchManifest, UpdateEvent::Manifest(Ok(manifest))) => Some(manifest),
                _ => self.manifest,
            }),
            out.channel == (match (self.step, event) {
                (UpdateStep::ReadChannel, UpdateEvent::Channel(setting)) => channel_of(
                    match setting {
                        Some(value) => Some(value@),
                        None => None,
                    },
                ),
                _ => self.channel,
            }),
            match (self.step, event) {
                (UpdateStep::ProbeInstalled, UpdateEvent::Installed { present, version }) => {
                    match self.manifest {
                        Some(manifest) => out.live_present == present && (out.target matches Some(
                            target,
                        ) && target@ == target_of(manifest, self.channel)@),
                        None => out.live_present == self.live_present && out.target
                            == self.target,
                    }
                },
                _ => out.live_present == self.live_present && out.target == self.target,
            },
            out.installed == (self.installed || (self.step == UpdateStep::CopyTemp && out.step
                == UpdateStep::Finished)),
    {
        match self.step {
            UpdateStep::FetchManifest => match event {
                UpdateEvent::Manifest(Ok(manifest)) => FarmerUpdate {
                    step: UpdateStep::ReadChannel,
                    arch: self.arch,
                    channel: self.channel,
                    manifest: Some(manifest),
                    target: self.target,
                    live_present: self.live_present,
                    installed: self.installed,
                    failure: self.failure,
                },
                UpdateEvent::Manifest(Err(e)) => self.fail(e),
                _ => self.unexpected(),
            },
            UpdateStep::ReadChannel => match event {
                UpdateEvent::Channel(setting) => {
                    let channel = match &setting {
                        Some(value) => UpdateChannel::from_setting(Some(value.as_str())),
                        None => UpdateChannel::from_setting(None),
                    };
                    let next = FarmerUpdate {
                        step: UpdateStep::ProbeInstalled,
                        arch: self.arch,
                        channel,
                        manifest: self.manifest,
                        target: self.target,
                        live_present: self.live_present,
                        installed: self.installed,
                        failure: self.failure,
                    };
                    if next.manifest.is_some() {
                        next
                    } else {
                        next.unexpected()
                    }
                },
                _ => self.unexpected(),
            },
            UpdateStep::ProbeInstalled => match event {
                UpdateEvent::Installed { present, version } => {
                    let (target, install) = match &self.manifest {
                        Some(manifest) => {
                            let target = manifest.target_version(self.channel);
                            let install = !present || should_install(version.as_ref(), target);
                            (target.duplicate(), install)
                        },
                        None => { return self.unexpected(); },
                    };
                    FarmerUpdate {
                        step: if install {
                            UpdateStep::Download
                        } else {
                            UpdateStep::Finished
                        },
                        arch: self.arch,
                        channel: self.channel,
                        manifest: self.manifest,
                        target: Some(target),
                        live_present: present,
                        installed: self.installed,
                        failure: self.failure,
                    }
                },
                _ => self.unexpected(),
            },
            UpdateStep::Download => match event {
                UpdateEvent::Downloaded(Ok(_)) => self.at(UpdateStep::MakeExecutable),
                UpdateEvent::Downloaded(Err(e)) => self.fail(e),
                _ => self.unexpected(),
            },
            UpdateStep::MakeExecutable => match event {
                UpdateEvent::MadeExecutable(Ok(_)) => self.at(UpdateStep::ProbeDownloaded),
                UpdateEvent::MadeExecutable(Err(e)) => self.fail(e),
                _ => self.unexpected(),
            },
            UpdateStep::ProbeDownloaded => match event {
                UpdateEvent::Probed(reported) => {
                    let verdict = match &self.target {
                        Some(target) => verify_download(reported.as_ref(), target),
                        None => Err(
                            Error::other(String::from_str("Failed to read downloaded binary version")),
                        ),
                    };
                    match verdict {
                        Ok(_) => {
                            if self.live_present {
                                self.at(UpdateStep::RemoveBackup)
                            } else {
                                self.at(UpdateStep::CopyTemp)
                            }
                        },
                        Err(e) => self.fail(e),
                    }
                },
                _ => self.unexpected(),
            },
            UpdateStep::RemoveBackup => match event {
                UpdateEvent::BackupRemoved => self.at(UpdateStep::RenameLive),
                _ => self.unexpected(),
            },
            UpdateStep::RenameLive => match event {
                UpdateEvent::Renamed(Ok(_)) => self.at(UpdateStep::CopyTemp),
                UpdateEvent::Renamed(Err(e)) => self.fail(e),
                _ => self.unexpected(),
            },
            UpdateStep::CopyTemp => match event {
                UpdateEvent::Copied(Ok(_)) => FarmerUpdate {
                    step: UpdateStep::Finished,
                    arch: self.arch,
                    channel: self.channel,
                    manifest: self.manifest,
                    target: self.target,
                    live_present: self.live_present,
                    installed: true,
                    failure: self.failure,
                },
                UpdateEvent::Copied(Err(e)) => self.fail(e),
                _ => self.unexpected(),
            },
            UpdateStep::RestoreLive => self.at(UpdateStep::Failed),
            UpdateStep::Finished => self,
            UpdateStep::Failed => self,
        }
    }
}

/// Checks the version that a fetched binary reports against the version that
/// was aimed at. A binary that reports no version, or another one, is refused
/// with `Other`.
pub fn verify_download(reported: Option<&Version>, target: &Version) -> (out: Result<(), Error>)
    ensures
        match reported {
            Some(version) => if version@ == target@ {
                out is Ok
            } else {
                out matches Err(e) && e.kind == ErrorKind::Other
            },
            None => out matches Err(e) && e.kind == ErrorKind::Other,
        },
{
    match reported {
        None => Err(Error::other(String::from_str("Failed to read downloaded binary version"))),
        Some(version) => {
            if version.same(target) {
                Ok(())
            } else {
                Err(Error::other(String::from_str("Downloaded binary version mismatch")))
            }
        },
    }
}

/// Whether the event is the report of the target version by the fetched
/// binary, at the step that asks for it.
pub open spec fn probe_confirms(state: FarmerUpdate, event: UpdateEvent) -> bool {
    state.step == UpdateStep::ProbeDownloaded && match event {
        UpdateEvent::Probed(reported) => is_target(reported, state.target),
        _ => false,
    }
}

/// Whether the event says that the fetched binary was copied to the live
/// path, at the step that asks for it.
pub open spec fn copy_done(state: FarmerUpdate, event: UpdateEvent) -> bool {
    state.step == UpdateStep::CopyTemp && match event {
        UpdateEvent::Copied(Ok(_)) => true,
        _ => false,
    }
}

/// Whether the event says that a live binary is there, at the step that asks
/// for it.
pub open spec fn live_found(state: FarmerUpdate, event: UpdateEvent) -> bool {
    state.step == UpdateStep::ProbeInstalled && match event {
        UpdateEvent::Installed { present, version } => present,
        _ => false,
    }
}

/// The binaries that are in place are touched only after the fetched binary
/// has reported the version that was aimed at: an update comes to a step that
/// changes them only from another such step, or from the probe of the fetched
/// binary with a report of the target version. Any other report gives the
/// update up before anything is changed.
pub proof fn swap_only_after_verification(state: FarmerUpdate, event: UpdateEvent)
    ensures
        is_swap_step(next_step(state, event)) ==> is_swap_step(state.step) || probe_confirms(
            state,
            event,
        ),
        state.step == UpdateStep::ProbeDownloaded && !probe_confirms(state, event) ==> next_step(
            state,
            event,
        ) == UpdateStep::Failed,
{
}

/// Where the live binary was renamed to the backup, the update is not given
/// up before the backup was renamed to the live path again: unless the copy
/// succeeds, the restoring step follows it, whatever the copy gave; the
/// restoring step follows nothing else, and after it the update has failed.
pub proof fn live_binary_is_put_back(state: FarmerUpdate, event: UpdateEvent)
    ensures
        state.step == UpdateStep::CopyTemp && state.live_present ==> next_step(state, event) == (
        if copy_done(state, event) {
            UpdateStep::Finished
        } else {
            UpdateStep::RestoreLive
        }),
        state.step == UpdateStep::RestoreLive ==> next_step(state, event) == UpdateStep::Failed,
        next_step(state, event) == UpdateStep::RestoreLive ==> state.step == UpdateStep::CopyTemp
            && state.live_present,
{
}

/// An update that is not over comes to its end in one of two ways only: by
/// the copy of the fetched binary to the live path, or because the live
/// binary needs no update.
pub proof fn finished_by_copy_or_skip(state: FarmerUpdate, event: UpdateEvent)
    requires
        state.step != UpdateStep::Finished,
    ensures
        next_step(state, event) == UpdateStep::Finished ==> copy_done(state, event) || live_found(
            state,
            event,
        ),
{
}

/// A live binary that reports a version below the target is replaced, and one
/// that reports the target or a version above it is kept: the update goes on
/// to fetch in the first case and ends at once in the second. A binary that
/// is not there, or reports no version, is always fetched.
pub proof fn installs_exactly_when_older(
    state: FarmerUpdate,
    present: bool,
    version: Option<Version>,
)
    requires
        state.step == UpdateStep::ProbeInstalled,
        state.manifest is Some,
    ensures
        ({
            let target = target_of(state.manifest->0, state.channel)@;
            let next = next_step(state, UpdateEvent::Installed { present, version });
            match version {
                None => next == UpdateStep::Download,
                Some(v) => {
                    &&& !present ==> next == UpdateStep::Download
                    &&& present && version_order(v@, target) == Some(-1int) ==> next
                        == UpdateStep::Download
                    &&& present && (version_order(v@, target) == Some(0int) || version_order(
                        v@,
                        target,
                    ) == Some(1int)) ==> next == UpdateStep::Finished
                },
            }
        }),
{
}

/// Whether the binary has to be fetched before the farmer can run: whenever
/// it is not there.
pub fn ensure_installed(present: bool) -> (out: bool)
    ensures
        out == !present,
{
    !present
}

/// What it takes to run the farmer: the program, its arguments in their
/// order, and the file to which the configuration is written before.
#[derive(Clone, Debug)]
pub struct FarmerLaunch {
    pub program: String,
    pub config_path: String,
    pub arguments: Vec<String>,
}

/// The supervisor of the farmer process: it knows whether the process was
/// started and not stopped since.
#[derive(Debug)]
pub struct FarmerManager {
    running: bool,
}

impl FarmerManager {
    /// Whether the farmer was started and not stopped since.
    pub closed spec fn started(&self) -> bool {
        self.running
    }

    /// A supervisor whose farmer was not started.
    pub fn new() -> (out: FarmerManager)
        ensures
            !out.started(),
    {
        FarmerManager { running: false }
    }

    /// Whether the farmer was started and not stopped since.
    pub fn is_running(&self) -> (out: bool)
        ensures
            out == self.started(),
    {
        self.running
    }

    /// Starts the farmer: says how to run it, and holds it for started from
    /// now on. A farmer that was started already is refused with
    /// `InvalidInput`. The configuration is written to `CONFIG_PATH`, and the
    /// binary at `BIN_PATH` is run with `run`, `-c`, that path, `-m` and `cli`.
    pub fn start_farmer(&mut self) -> (out: Result<FarmerLaunch, Error>)
        ensures
            final(self).started(),
            old(self).started() ==> (out matches Err(e) && e.kind == ErrorKind::InvalidInput),
            !old(self).started() ==> (out matches Ok(launch) && launch.program@ == BIN_PATH@
                && launch.config_path@ == CONFIG_PATH@ && launch.arguments@.len() == 5
                && launch.arguments@[0]@ == "run"@ && launch.arguments@[1]@ == "-c"@
                && launch.arguments@[2]@ == CONFIG_PATH@ && launch.arguments@[3]@ == "-m"@
                && launch.arguments@[4]@ == "cli"@),
    {
        if self.running {
            return Err(
                Error::new(ErrorKind::InvalidInput, String::from_str("Farmer Already Started")),
            );
        }
        let mut arguments: Vec<String> = Vec::new();
        arguments.push(String::from_str("run"));
        arguments.push(String::from_str("-c"));
        arguments.push(String::from_str(CONFIG_PATH));
        arguments.push(String::from_str("-m"));
        arguments.push(String::from_str("cli"));
        self.running = true;
        Ok(
            FarmerLaunch {
                program: String::from_str(BIN_PATH),
                config_path: String::from_str(CONFIG_PATH),
                arguments,
            },
        )
    }

    /// Stops the farmer, and says whether there is a process to end and a
    /// configuration file to remove: there is if the farmer was started.
    /// Stopping a farmer that was not started does nothing.
    pub fn stop_farmer(&mut self) -> (out: bool)
        ensures
            out == old(self).started(),
            !final(self).started(),
    {
        let was = self.running;
        self.running = false;
        was
    }

    /// Lets the farmer go when the supervisor is disposed of, and says whether
    /// there is a process that has to be ended by force.
    pub fn shutdown(&mut self) -> (out: bool)
        ensures
            out == old(self).started(),
            !final(self).started(),
    {
        self.stop_farmer()
    }

    /// The state of the farmer process, from a look at it that did not wait.
    /// A farmer that was not started is stopped, whatever the look gave.
    pub fn farmer_status(&self, poll: ChildPoll) -> (out: FarmerStatus)
        ensures
            out == status_of(self.started(), poll),
    {
        if !self.running {
            FarmerStatus::Stopped
        } else {
            match poll {
                ChildPoll::Running => FarmerStatus::Running,
                ChildPoll::Exited(Some(code)) => FarmerStatus::Exited(code),
                ChildPoll::Exited(None) => FarmerStatus::Exited(0),
                ChildPoll::Failed => FarmerStatus::Unknown,
            }
        }
    }
}

/// The state of the farmer process: stopped where it was not started; else
/// running while it has not ended, exited with its code, or with 0 where it
/// has none, once it has, and unknown where the look at it failed.
pub open spec fn status_of(started: bool, poll: ChildPoll) -> FarmerStatus {
    if !started {
        FarmerStatus::Stopped
    } else {
        match poll {
            ChildPoll::Running => FarmerStatus::Running,
            ChildPoll::Exited(Some(code)) => FarmerStatus::Exited(code),
            ChildPoll::Exited(None) => FarmerStatus::Exited(0),
            ChildPoll::Failed => FarmerStatus::Unknown,
        }
    }
}

/// The address of the farmer's local endpoints.
pub open spec fn local_address(port: u16) -> Seq<char> {
    "http://localhost:"@ + decimal(port as nat)
}

/// The address of the farmer's local endpoints, from the port of its metrics
/// server. A configuration without metrics is refused with `InvalidInput`.
pub fn farmer_url(metrics_port: Option<u16>) -> (out: Result<String, Error>)
    ensures
        match metrics_port {
            Some(port) => out matches Ok(url) && url@ == local_address(port),
            None => out matches Err(e) && e.kind == ErrorKind::InvalidInput,
        },
{
    match metrics_port {
        Some(port) => {
            let mut url = String::from_str("http://localhost:");
            push_decimal(&mut url, port as u64);
            Ok(url)
        },
        None => Err(
            Error::new(
                ErrorKind::InvalidInput,
                String::from_str("Invalid Config Metrics Disabled"),
            ),
        ),
    }
}

/// The port of the farmer's metrics server where no configuration is stored.
pub const DEFAULT_METRICS_PORT: u16 = 9090;

/// A local endpoint of the farmer that requests are relayed to.
#[derive(Clone, Copy, Debug, PartialEq, Eq, Structural)]
pub enum FarmerEndpoint {
    Metrics,
    State,
    Stats,
}

/// The path of a local endpoint of the farmer.
pub open spec fn endpoint_path(endpoint: FarmerEndpoint) -> Seq<char> {
    match endpoint {
        FarmerEndpoint::Metrics => "/metrics"@,
        FarmerEndpoint::State => "/state"@,
        FarmerEndpoint::Stats => "/stats"@,
    }
}

/// The address of a local endpoint of the farmer, from the port of its
/// metrics server. A configuration without metrics is refused with
/// `InvalidInput`.
pub fn endpoint_url(metrics_port: Option<u16>, endpoint: FarmerEndpoint) -> (out: Result<
    String,
    Error,
>)
    ensures
        match metrics_port {
            Some(port) => out matches Ok(url) && url@ == local_address(port) + endpoint_path(
                endpoint,
            ),
            None => out matches Err(e) && e.kind == ErrorKind::InvalidInput,
        },
{
    match farmer_url(metrics_port) {
        Ok(base) => {
            let path = match endpoint {
                FarmerEndpoint::Metrics => "/metrics",
                FarmerEndpoint::State => "/state",
                FarmerEndpoint::Stats => "/stats",
            };
            Ok(base.concat(path))
        },
        Err(e) => Err(e),
    }
}

/// The severity of a log message.
#[derive(Clone, Copy, Debug, PartialEq, Eq, Structural)]
pub enum LogLevel {
    Error,
    Warn,
    Info,
    Debug,
    Trace,
}

/// The severity that a text names, whatever its case; none where it names
/// none of the five.
pub open spec fn level_of(text: Seq<char>) -> Option<LogLevel> {
    let lower = lower_text(text);
    if lower == "error"@ {
        Some(LogLevel::Error)
    } else if lower == "warn"@ {
        Some(LogLevel::Warn)
    } else if lower == "info"@ {
        Some(LogLevel::Info)
    } else if lower == "debug"@ {
        Some(LogLevel::Debug)
    } else if lower == "trace"@ {
        Some(LogLevel::Trace)
    } else {
        None
    }
}

/// The name of a severity, in capitals.
pub open spec fn level_name(level: LogLevel) -> Seq<char> {
    match level {
        LogLevel::Error => "ERROR"@,
        LogLevel::Warn => "WARN"@,
        LogLevel::Info => "INFO"@,
        LogLevel::Debug => "DEBUG"@,
        LogLevel::Trace => "TRACE"@,
    }
}

/// Calls `log::Level::from_str`. Trusted: it accepts the names of the five
/// levels, compared without regard to the case of ASCII letters, and nothing
/// else.
#[verifier::external_body]
fn parse_level(text: &str) -> (out: Option<LogLevel>)
    ensures
        out == level_of(text@),
{
    match <log::Level as std::str::FromStr>::from_str(text) {
        Ok(log::Level::Error) => Some(LogLevel::Error),
        Ok(log::Level::Warn) => Some(LogLevel::Warn),
        Ok(log::Level::Info) => Some(LogLevel::Info),
        Ok(log::Level::Debug) => Some(LogLevel::Debug),
        Ok(log::Level::Trace) => Some(LogLevel::Trace),
        Err(_) => None,
    }
}

/// Calls `log::Level::as_str`. Trusted: it gives the name of the level in
/// capitals.
#[verifier::external_body]
fn name_of_level(level: LogLevel) -> (out: &'static str)
    ensures
        out@ == level_name(level),
{
    match level {
        LogLevel::Error => log::Level::Error.as_str(),
        LogLevel::Warn => log::Level::Warn.as_str(),
        LogLevel::Info => log::Level::Info.as_str(),
        LogLevel::Debug => log::Level::Debug.as_str(),
        LogLevel::Trace => log::Level::Trace.as_str(),
    }
}

/// The severity that a request for the stream of log messages names. A text
/// that names none is refused with `InvalidInput`.
pub fn log_level(text: &str) -> (out: Result<LogLevel, Error>)
    ensures
        match level_of(text@) {
            Some(level) => out == Ok::<LogLevel, Error>(level),
            None => out matches Err(e) && e.kind == ErrorKind::InvalidInput && e.message@ == text@
                + " is not a valid Log Level"@,
        },
{
    match parse_level(text) {
        Some(level) => Ok(level),
        None => Err(
            Error::new(
                ErrorKind::InvalidInput,
                String::from_str(text).concat(" is not a valid Log Level"),
            ),
        ),
    }
}

/// The address of the farmer's stream of log messages at a severity.
pub open spec fn stream_address(port: u16, level: LogLevel) -> Seq<char> {
    "ws://localhost:"@ + decimal(port as nat) + "/log_stream/"@ + level_name(level)
}

/// The address of the farmer's stream of log messages at a severity.
pub fn log_stream_url(port: u16, level: LogLevel) -> (out: String)
    ensures
        out@ == stream_address(port, level),
{
    let mut url = String::from_str("ws://localhost:");
    push_decimal(&mut url, port as u64);
    url.append("/log_stream/");
    url.append(name_of_level(level));
    url
}

/// The address to which the relay of log messages connects, from the
/// severity that the request names and the port of the farmer's metrics
/// server. A text that names no severity, and a configuration without
/// metrics, are refused with `InvalidInput`.
pub fn farmer_log_stream(level: &str, metrics_port: Option<u16>) -> (out: Result<String, Error>)
    ensures
        match (level_of(level@), metrics_port) {
            (Some(severity), Some(port)) => out matches Ok(url) && url@ == stream_address(
                port,
                severity,
            ),
            _ => out matches Err(e) && e.kind == ErrorKind::InvalidInput,
        },
{
    let severity = match log_level(level) {
        Ok(severity) => severity,
        Err(e) => {
            return Err(e);
        },
    };
    match metrics_port {
        Some(port) => Ok(log_stream_url(port, severity)),
        None => Err(
            Error::new(
                ErrorKind::InvalidInput,
                String::from_str("Invalid Config Metrics Disabled"),
            ),
        ),
    }
}

/// The error that a relay to the farmer's endpoints gives where the farmer
/// cannot be reached or what it sent cannot be read: `InvalidInput`, with the
/// cause behind a label.
pub fn relay_failure(label: &str, cause: &str) -> (out: Error)
    ensures
        out.kind == ErrorKind::InvalidInput,
        out.message@ == label@ + cause@,
{
    Error::new(ErrorKind::InvalidInput, String::from_str(label).concat(cause))
}

/// How long an idle side of the log relay is left alone, in milliseconds.
pub const RELAY_IDLE_MILLIS: u64 = 1;

/// What happened at the log relay.
#[derive(Clone, Debug)]
pub enum RelayEvent {
    /// The farmer sent a message.
    UpstreamMessage,
    /// The farmer had nothing to send.
    UpstreamIdle,
    /// The farmer closed its side.
    UpstreamClosed,
    /// Reading from the farmer failed.
    UpstreamFailed(Error),
    /// The client sent a message.
    ClientMessage,
    /// The client had nothing to send.
    ClientIdle,
    /// The client closed its side.
    ClientClosed,
    /// Reading from the client failed.
    ClientFailed(Error),
    /// Passing a message on failed.
    SendFailed(Error),
    /// The server is shutting down.
    Shutdown,
}

/// What the log relay does next.
#[derive(Debug)]
pub enum RelayAction {
    /// Pass the farmer's message on to the client.
    SendToClient,
    /// Pass the client's message on to the farmer.
    SendToUpstream,
    /// Wait this many milliseconds, then look at both sides again.
    Sleep(u64),
    /// Close both sides, and end with this result.
    Close(Result<(), Error>),
}

/// What the log relay does next, from what happened. A message goes to the
/// other side. An idle side is left alone for the idle interval. When either
/// side closes, or the server shuts down, both sides are closed without an
/// error. A failure closes both sides and is handed back.
pub fn relay_step(event: RelayEvent) -> (out: RelayAction)
    ensures
        match event {
            RelayEvent::UpstreamMessage => out is SendToClient,
            RelayEvent::ClientMessage => out is SendToUpstream,
            RelayEvent::UpstreamIdle | RelayEvent::ClientIdle => out matches RelayAction::Sleep(
                millis,
            ) && millis == RELAY_IDLE_MILLIS,
            RelayEvent::UpstreamClosed | RelayEvent::ClientClosed | RelayEvent::Shutdown => out
                matches RelayAction::Close(Ok(_)),
            RelayEvent::UpstreamFailed(e) | RelayEvent::ClientFailed(e) | RelayEvent::SendFailed(
                e,
            ) => out matches RelayAction::Close(Err(failure)) && failure == e,
        },
{
    match event {
        RelayEvent::UpstreamMessage => RelayAction::SendToClient,
        RelayEvent::ClientMessage => RelayAction::SendToUpstream,
        RelayEvent::UpstreamIdle => RelayAction::Sleep(RELAY_IDLE_MILLIS),
        RelayEvent::ClientIdle => RelayAction::Sleep(RELAY_IDLE_MILLIS),
        RelayEvent::UpstreamClosed => RelayAction::Close(Ok(())),
        RelayEvent::ClientClosed => RelayAction::Close(Ok(())),
        RelayEvent::Shutdown => RelayAction::Close(Ok(())),
        RelayEvent::UpstreamFailed(e) => RelayAction::Close(Err(e)),
        RelayEvent::ClientFailed(e) => RelayAction::Close(Err(e)),
        RelayEvent::SendFailed(e) => RelayAction::Close(Err(e)),
    }
}

} // verus!
