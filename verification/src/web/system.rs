//! Requests about the system: its own updates and its wireless network.

use crate::error::{Error, ErrorKind};
use crate::plugins::farmer::LogLevel;
use crate::version::{semver_parse, version_order, Precedence, Version};
use vstd::prelude::*;
use vstd::string::*;

verus! {

/// The version that can be had, the version that runs, and whether the first
/// stands above the second.
#[derive(Clone, Debug)]
pub struct UpdateInfo {
    pub remote_version: Version,
    pub local_version: Version,
    pub has_update: bool,
}

/// A wireless network in reach, with the strength of its signal.
#[derive(Clone, Debug)]
pub struct AccessPoint {
    pub ssid: String,
    pub strength: u8,
}

/// A request to join a wireless network.
#[derive(Clone, Debug)]
pub struct ConnectPayload {
    pub ssid: String,
    pub password: Option<String>,
}

/// A request to open a wireless network of this system's own.
#[derive(Clone, Debug)]
pub struct HotspotPayload {
    pub device: Option<String>,
    pub ssid: String,
    pub password: Option<String>,
}

/// Whether the system has an update, from the version that the remote
/// manifest names and the version that runs. A text that is no semantic
/// version is refused with `Other`.
pub fn find_updates(remote: &str, local: &str) -> (out: Result<UpdateInfo, Error>)
    ensures
        match (semver_parse(remote@), semver_parse(local@)) {
            (Some(r), Some(l)) => out matches Ok(info) && info.remote_version@ == r
                && info.local_version@ == l && info.has_update == (version_order(r, l) == Some(
                1int,
            )),
            _ => out matches Err(e) && e.kind == ErrorKind::Other,
        },
{
    let remote_version = match Version::parse(remote) {
        Some(version) => version,
        None => {
            return Err(Error::other(String::from_str("Invalid remote version")));
        },
    };
    let local_version = match Version::parse(local) {
        Some(version) => version,
        None => {
            return Err(Error::other(String::from_str("Invalid local version")));
        },
    };
    let has_update = match remote_version.compare(&local_version) {
        Some(Precedence::Higher) => true,
        _ => false,
    };
    Ok(UpdateInfo { remote_version, local_version, has_update })
}

/// The place of a severity among the five, from the most severe to the least.
pub open spec fn severity_rank(level: LogLevel) -> int {
    match level {
        LogLevel::Error => 1,
        LogLevel::Warn => 2,
        LogLevel::Info => 3,
        LogLevel::Debug => 4,
        LogLevel::Trace => 5,
    }
}

fn rank_of(level: LogLevel) -> (out: u8)
    ensures
        out == severity_rank(level),
{
    match level {
        LogLevel::Error => 1,
        LogLevel::Warn => 2,
        LogLevel::Info => 3,
        LogLevel::Debug => 4,
        LogLevel::Trace => 5,
    }
}

/// How long the stream of the system's log messages waits when its client
/// has nothing to say, in milliseconds.
pub const LOG_STREAM_IDLE_MILLIS: u64 = 10;

/// What happened at the stream of the system's log messages.
#[derive(Clone, Debug)]
pub enum LogStreamEvent {
    /// The system logged a message of this severity.
    Entry(LogLevel),
    /// The channel of log messages failed.
    ChannelFailed,
    /// The client sent a ping.
    Ping,
    /// The client sent a message that is not answered.
    Ignored,
    /// The client closed the stream.
    Close,
    /// The client had nothing to say.
    Idle,
    /// Reading from the client failed.
    ClientFailed(Error),
    /// Sending a log message to the client failed.
    EntryNotSent,
    /// Answering a ping failed.
    PongNotSent(Error),
}

/// What the stream of the system's log messages does next.
#[derive(Debug)]
pub enum LogStreamAction {
    /// Send the log message to the client.
    SendEntry,
    /// Answer the ping.
    SendPong,
    /// Nothing; look again.
    Skip,
    /// Wait this many milliseconds, then look again.
    Sleep(u64),
    /// End the stream with this result.
    End(Result<(), Error>),
}

/// What the stream of the system's log messages at a severity does next,
/// from what happened. A message is sent when it is at least as severe as the
/// stream asks for. A ping is answered; other messages of the client are
/// passed over. The stream ends without an error when the client closes it,
/// when the channel of log messages fails and when a log message cannot be
/// sent; it ends with the failure when reading from the client or answering
/// a ping fails.
pub fn log_stream(level: LogLevel, event: LogStreamEvent) -> (out: LogStreamAction)
    ensures
        match event {
            LogStreamEvent::Entry(severity) => if severity_rank(severity) <= severity_rank(
                level,
            ) {
                out is SendEntry
            } else {
                out is Skip
            },
            LogStreamEvent::Ping => out is SendPong,
            LogStreamEvent::Ignored => out is Skip,
            LogStreamEvent::Idle => out matches LogStreamAction::Sleep(millis) && millis
                == LOG_STREAM_IDLE_MILLIS,
            LogStreamEvent::Close | LogStreamEvent::ChannelFailed | LogStreamEvent::EntryNotSent => out
                matches LogStreamAction::End(Ok(_)),
            LogStreamEvent::ClientFailed(e) | LogStreamEvent::PongNotSent(e) => out
                matches LogStreamAction::End(Err(failure)) && failure == e,
        },
{
    match event {
        LogStreamEvent::Entry(severity) => if rank_of(severity) <= rank_of(level) {
            LogStreamAction::SendEntry
        } else {
            LogStreamAction::Skip
        },
        LogStreamEvent::Ping => LogStreamAction::SendPong,
        LogStreamEvent::Ignored => LogStreamAction::Skip,
        LogStreamEvent::Idle => LogStreamAction::Sleep(LOG_STREAM_IDLE_MILLIS),
        LogStreamEvent::Close => LogStreamAction::End(Ok(())),
        LogStreamEvent::ChannelFailed => LogStreamAction::End(Ok(())),
        LogStreamEvent::EntryNotSent => LogStreamAction::End(Ok(())),
        LogStreamEvent::ClientFailed(e) => LogStreamAction::End(Err(e)),
        LogStreamEvent::PongNotSent(e) => LogStreamAction::End(Err(e)),
    }
}

} // verus!
