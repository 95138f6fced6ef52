//! Release resolution and the install flow.
//!
//! Resolving "latest" means one HTTP GET against a fixed endpoint whose JSON
//! body carries a tag field; the application performs the GET and hands the
//! body here.  Downloading an artifact needs no network decision at all: its
//! URL is template substitution.  Installing is a small state machine: the
//! application performs each commanded step (probe, download, extract, mark
//! executables, clean up) and reports its outcome, and the machine decides
//! what follows.  Install status has no manifest: the presence of the
//! expected executable is its only signal, so a failed flow leaves the state
//! "not installed" and a later run retries from the start.

use crate::project::config::EngineDownloadSource;
use crate::project::engine::{spec_format_version, spec_parse_version, EngineVersion};
use vstd::prelude::*;

verus! {

/// How resolving the latest release can fail.  Each cause is surfaced
/// distinctly, never defaulted.
#[derive(Clone, Copy, PartialEq, Eq, Structural, Debug)]
pub enum FetchError {
    /// The transport failed before a response arrived.
    Transport,
    /// The endpoint answered with a non-success status.
    Status(u16),
    /// The response body was not the expected JSON shape.
    MalformedResponse,
}

/// The endpoint that serves the latest-release metadata of a source.
pub fn latest_release_url(source: &EngineDownloadSource) -> (r: &'static str)
    ensures
        r@ == "https://api.github.com/repos/godotengine/godot/releases/latest"@,
{
    match source {
        EngineDownloadSource::GitHub => {
            "https://api.github.com/repos/godotengine/godot/releases/latest"
        },
    }
}

/// Classifies an HTTP response status: success lets the fetch go on; any
/// other status is the remote-fetch failure carrying that status.
pub fn classify_status(status: u16) -> (r: Result<(), FetchError>)
    ensures
        r is Ok <==> 200 <= status < 300,
        r is Err ==> r->Err_0 == FetchError::Status(status),
{
    if 200 <= status && status < 300 {
        Ok(())
    } else {
        Err(FetchError::Status(status))
    }
}

/// The `tag_name` string field of a latest-release response body, when the
/// body is a JSON object carrying one.  What counts as JSON takes pages to
/// state, but the result depends on the body text alone, so it is named
/// here and pinned down nowhere: a check on concrete bodies reaches the
/// real parser through [`latest_tag`].
pub uninterp spec fn spec_latest_tag(body: Seq<char>) -> Option<Seq<char>>;

/// Relies on `serde_json::from_str`, `serde_json::Value::get` and
/// `serde_json::Value::as_str`: the `tag_name` string field of a JSON
/// object body — `None` when the body is not JSON, not an object, or lacks
/// a string field of that name.  The result is a function of the body text
/// alone, named by [`spec_latest_tag`].
#[verifier::external_body]
fn latest_tag(body: &str) -> (r: Option<String>)
    ensures
        r is Some <==> spec_latest_tag(body@) is Some,
        r matches Some(tag) ==> tag@ == spec_latest_tag(body@)->Some_0,
{
    serde_json::from_str::<serde_json::Value>(body)
        .ok()
        .and_then(|doc| doc.get("tag_name").and_then(|t| t.as_str()).map(|s| s.to_string()))
}

/// Extracts the tag field from a latest-release response body and parses it
/// as a release identifier: exactly the bodies with a string `tag_name`
/// succeed, and the result is exactly that tag's parse.  Anything else is
/// malformed — reported, never defaulted.
pub fn parse_latest_release(body: &str) -> (r: Result<EngineVersion, FetchError>)
    ensures
        r is Ok <==> spec_latest_tag(body@) is Some,
        r matches Ok(v) ==> v@ == spec_parse_version(spec_latest_tag(body@)->Some_0),
        r matches Err(e) ==> e is MalformedResponse,
{
    match latest_tag(body) {
        Some(tag) => Ok(EngineVersion::from_string(tag)),
        None => Err(FetchError::MalformedResponse),
    }
}

/// The deterministic download URL of an artifact of a version: template
/// substitution only, no network involvement.
pub fn download_url(version: &EngineVersion, artifact: &str) -> (r: String)
    ensures
        r@ == "https://github.com/godotengine/godot/releases/download/"@ + spec_format_version(
            version@,
        ) + "/"@ + artifact@,
{
    let mut url = String::from_str("https://github.com/godotengine/godot/releases/download/");
    let version_text = version.to_string();
    url.append(version_text.as_str());
    url.append("/");
    url.append(artifact);
    url
}

/// The archive name a download is stored under locally.
pub fn archive_file_name(engine_name: &str) -> (r: String)
    ensures
        r@ == engine_name@ + ".zip"@,
{
    let mut name = String::from_str(engine_name);
    name.append(".zip");
    name
}

/// The artifact name on the remote publisher: standard (non-managed)
/// Windows artifacts carry an extra `.exe` marker before the extension.
pub fn remote_archive_file_name(engine_name: &str, windows: bool, mono: bool) -> (r: String)
    ensures
        r@ == engine_name@ + (if windows && !mono {
            ".exe.zip"@
        } else {
            ".zip"@
        }),
{
    let mut name = String::from_str(engine_name);
    if windows && !mono {
        name.append(".exe.zip");
    } else {
        name.append(".zip");
    }
    name
}

/// Why an install flow ended without installing.
#[derive(Clone, Copy, PartialEq, Eq, Structural, Debug)]
pub enum InstallFailure {
    /// The download failed: transport error or non-success status.
    Transport,
    /// The downloaded archive could not be read.
    Archive,
}

/// The control state of one install flow for one (version, platform) pair.
#[derive(Clone, Copy, PartialEq, Eq, Structural, Debug)]
pub enum InstallPhase {
    /// Checking whether the expected executable is already present.
    CheckingCache,
    /// Fetching the artifact archive.
    Downloading,
    /// Unpacking the archive into the install directory.
    Extracting,
    /// Marking the candidate executables, where the platform needs it.
    Finalizing,
    /// Reclaiming the scratch space.
    CleaningUp,
    /// The terminal success state: re-running is a no-op check.
    Installed,
    /// The terminal failure state: nothing more is written.
    Failed(InstallFailure),
}

/// What the embedding application must do next for the machine.
#[derive(Clone, Copy, PartialEq, Eq, Structural, Debug)]
pub enum InstallCommand {
    /// Test whether the expected executable path exists.
    ProbeExecutable,
    /// Stream the artifact to a scratch file and publish it to the archive
    /// path.
    FetchArchive,
    /// Extract the published archive into the install directory.
    ExtractArchive,
    /// Set the executable bit on each candidate executable that exists —
    /// best effort: a missing console variant is no error.
    MarkExecutables,
    /// Delete the scratch directory — best effort: failure is non-fatal.
    RemoveScratch,
    /// Nothing is left to do.
    Finished,
}

/// The outcome the application reports for a performed command.
#[derive(Clone, Copy, PartialEq, Eq, Structural, Debug)]
pub enum InstallEvent {
    /// Whether the expected executable is present.
    ProbeResult(bool),
    DownloadFinished,
    DownloadFailed,
    ExtractFinished,
    ExtractFailed,
    ExecutablesMarked,
    /// Whether reclaiming the scratch space succeeded; either way the flow
    /// ends installed.
    ScratchRemoved(bool),
}

/// The transition table.  An event that does not belong to the current
/// phase changes nothing.
pub open spec fn spec_install_step(phase: InstallPhase, event: InstallEvent) -> InstallPhase {
    match (phase, event) {
        (InstallPhase::CheckingCache, InstallEvent::ProbeResult(present)) => if present {
            InstallPhase::Installed
        } else {
            InstallPhase::Downloading
        },
        (InstallPhase::Downloading, InstallEvent::DownloadFinished) => InstallPhase::Extracting,
        (InstallPhase::Downloading, InstallEvent::DownloadFailed) => InstallPhase::Failed(
            InstallFailure::Transport,
        ),
        (InstallPhase::Extracting, InstallEvent::ExtractFinished) => InstallPhase::Finalizing,
        (InstallPhase::Extracting, InstallEvent::ExtractFailed) => InstallPhase::Failed(
            InstallFailure::Archive,
        ),
        (InstallPhase::Finalizing, InstallEvent::ExecutablesMarked) => InstallPhase::CleaningUp,
        (InstallPhase::CleaningUp, InstallEvent::ScratchRemoved(_)) => InstallPhase::Installed,
        (p, _) => p,
    }
}

/// The command each phase asks for.
pub open spec fn spec_install_command(phase: InstallPhase) -> InstallCommand {
    match phase {
        InstallPhase::CheckingCache => InstallCommand::ProbeExecutable,
        InstallPhase::Downloading => InstallCommand::FetchArchive,
        InstallPhase::Extracting => InstallCommand::ExtractArchive,
        InstallPhase::Finalizing => InstallCommand::MarkExecutables,
        InstallPhase::CleaningUp => InstallCommand::RemoveScratch,
        InstallPhase::Installed => InstallCommand::Finished,
        InstallPhase::Failed(_) => InstallCommand::Finished,
    }
}

/// Where a run of the machine ends after a sequence of reported events.
pub open spec fn spec_install_run(phase: InstallPhase, events: Seq<InstallEvent>) -> InstallPhase
    decreases events.len(),
{
    if events.len() == 0 {
        phase
    } else {
        spec_install_run(spec_install_step(phase, events[0]), events.skip(1))
    }
}

/// Every command a run asks for: the current phase's command, then those of
/// the phases the events lead through.
pub open spec fn spec_commands_issued(phase: InstallPhase, events: Seq<InstallEvent>) -> Seq<
    InstallCommand,
>
    decreases events.len(),
{
    if events.len() == 0 {
        seq![spec_install_command(phase)]
    } else {
        seq![spec_install_command(phase)] + spec_commands_issued(
            spec_install_step(phase, events[0]),
            events.skip(1),
        )
    }
}

/// The install state machine the application drives.
pub struct InstallMachine {
    pub phase: InstallPhase,
}

impl InstallMachine {
    /// A fresh flow: nothing is known of the cache yet.
    pub fn new() -> (r: InstallMachine)
        ensures
            r.phase == InstallPhase::CheckingCache,
    {
        InstallMachine { phase: InstallPhase::CheckingCache }
    }

    /// What the application must do in the current phase.
    pub fn command(&self) -> (r: InstallCommand)
        ensures
            r == spec_install_command(self.phase),
    {
        match self.phase {
            InstallPhase::CheckingCache => InstallCommand::ProbeExecutable,
            InstallPhase::Downloading => InstallCommand::FetchArchive,
            InstallPhase::Extracting => InstallCommand::ExtractArchive,
            InstallPhase::Finalizing => InstallCommand::MarkExecutables,
            InstallPhase::CleaningUp => InstallCommand::RemoveScratch,
            InstallPhase::Installed => InstallCommand::Finished,
            InstallPhase::Failed(_) => InstallCommand::Finished,
        }
    }

    /// Moves on the outcome the application reports, along the transition
    /// table.
    pub fn advance(&mut self, event: InstallEvent)
        ensures
            final(self).phase == spec_install_step(old(self).phase, event),
    {
        self.phase = match (self.phase, event) {
            (InstallPhase::CheckingCache, InstallEvent::ProbeResult(present)) => if present {
                InstallPhase::Installed
            } else {
                InstallPhase::Downloading
            },
            (InstallPhase::Downloading, InstallEvent::DownloadFinished) => InstallPhase::Extracting,
            (InstallPhase::Downloading, InstallEvent::DownloadFailed) => InstallPhase::Failed(
                InstallFailure::Transport,
            ),
            (InstallPhase::Extracting, InstallEvent::ExtractFinished) => InstallPhase::Finalizing,
            (InstallPhase::Extracting, InstallEvent::ExtractFailed) => InstallPhase::Failed(
                InstallFailure::Archive,
            ),
            (InstallPhase::Finalizing, InstallEvent::ExecutablesMarked) => InstallPhase::CleaningUp,
            (InstallPhase::CleaningUp, InstallEvent::ScratchRemoved(_)) => InstallPhase::Installed,
            (p, _) => p,
        };
    }

    /// Whether the flow is over, for good or ill.
    pub fn is_finished(&self) -> (r: bool)
        ensures
            r == (self.phase is Installed || self.phase is Failed),
    {
        match self.phase {
            InstallPhase::Installed => true,
            InstallPhase::Failed(_) => true,
            _ => false,
        }
    }

    /// The failure that ended the flow, when one did.
    pub fn failure(&self) -> (r: Option<InstallFailure>)
        ensures
            match r {
                Some(f) => self.phase == InstallPhase::Failed(f),
                None => !(self.phase is Failed),
            },
    {
        match self.phase {
            InstallPhase::Failed(f) => Some(f),
            _ => None,
        }
    }
}

/// An event that answers the command its phase asked for; the terminal
/// phases ask for nothing, so no event fits them.
pub open spec fn spec_event_fits(phase: InstallPhase, event: InstallEvent) -> bool {
    match (phase, event) {
        (InstallPhase::CheckingCache, InstallEvent::ProbeResult(_)) => true,
        (InstallPhase::Downloading, InstallEvent::DownloadFinished) => true,
        (InstallPhase::Downloading, InstallEvent::DownloadFailed) => true,
        (InstallPhase::Extracting, InstallEvent::ExtractFinished) => true,
        (InstallPhase::Extracting, InstallEvent::ExtractFailed) => true,
        (InstallPhase::Finalizing, InstallEvent::ExecutablesMarked) => true,
        (InstallPhase::CleaningUp, InstallEvent::ScratchRemoved(_)) => true,
        (_, _) => false,
    }
}

/// Every event of a run answers the phase it is reported in.
pub open spec fn spec_events_fit(phase: InstallPhase, events: Seq<InstallEvent>) -> bool
    decreases events.len(),
{
    events.len() == 0 || (spec_event_fits(phase, events[0]) && spec_events_fit(
        spec_install_step(phase, events[0]),
        events.skip(1),
    ))
}

/// How far along the flow a phase is; both terminal states are furthest.
pub open spec fn spec_phase_rank(phase: InstallPhase) -> int {
    match phase {
        InstallPhase::CheckingCache => 0,
        InstallPhase::Downloading => 1,
        InstallPhase::Extracting => 2,
        InstallPhase::Finalizing => 3,
        InstallPhase::CleaningUp => 4,
        InstallPhase::Installed => 5,
        InstallPhase::Failed(_) => 5,
    }
}

/// How many download commands a run asks for.
pub open spec fn spec_downloads_issued(phase: InstallPhase, events: Seq<InstallEvent>) -> int
    decreases events.len(),
{
    (if spec_install_command(phase) == InstallCommand::FetchArchive {
        1int
    } else {
        0int
    }) + if events.len() == 0 {
        0int
    } else {
        spec_downloads_issued(spec_install_step(phase, events[0]), events.skip(1))
    }
}

/// A fitting event moves the flow strictly forward.
proof fn lemma_fitting_event_advances(phase: InstallPhase, event: InstallEvent)
    requires
        spec_event_fits(phase, event),
    ensures
        spec_phase_rank(spec_install_step(phase, event)) > spec_phase_rank(phase),
{
}

/// Law: one run of the flow, driven by events that answer its commands,
/// asks for at most one download, and for none at all once the flow is past
/// the download phase.  Together with the probe-hit law this is the
/// idempotence of ensuring a version: a run never downloads twice, and a
/// re-run over an installed version downloads nothing.
pub proof fn lemma_download_at_most_once(phase: InstallPhase, events: Seq<InstallEvent>)
    requires
        spec_events_fit(phase, events),
    ensures
        spec_downloads_issued(phase, events) <= 1,
        spec_phase_rank(phase) > 1 ==> spec_downloads_issued(phase, events) == 0,
    decreases events.len(),
{
    if events.len() > 0 {
        lemma_fitting_event_advances(phase, events[0]);
        lemma_download_at_most_once(spec_install_step(phase, events[0]), events.skip(1));
    }
}

/// The success state absorbs every further event and asks for nothing more.
pub proof fn lemma_installed_is_terminal(events: Seq<InstallEvent>)
    ensures
        spec_install_run(InstallPhase::Installed, events) == InstallPhase::Installed,
        forall|i: int|
            0 <= i < spec_commands_issued(InstallPhase::Installed, events).len()
                ==> spec_commands_issued(InstallPhase::Installed, events)[i]
                == InstallCommand::Finished,
    decreases events.len(),
{
    if events.len() > 0 {
        lemma_installed_is_terminal(events.skip(1));
    }
}

/// A failure state absorbs every further event and asks for nothing more.
pub proof fn lemma_failed_is_terminal(f: InstallFailure, events: Seq<InstallEvent>)
    ensures
        spec_install_run(InstallPhase::Failed(f), events) == InstallPhase::Failed(f),
        forall|i: int|
            0 <= i < spec_commands_issued(InstallPhase::Failed(f), events).len()
                ==> spec_commands_issued(InstallPhase::Failed(f), events)[i]
                == InstallCommand::Finished,
    decreases events.len(),
{
    if events.len() > 0 {
        lemma_failed_is_terminal(f, events.skip(1));
    }
}

/// Law: when the first probe finds the executable already present — as it
/// does right after a successful install — the flow ends installed at once
/// and never asks for a download: ensuring an installed version twice
/// downloads nothing the second time.
pub proof fn lemma_probe_hit_never_downloads(events: Seq<InstallEvent>)
    requires
        events.len() > 0,
        events[0] == InstallEvent::ProbeResult(true),
    ensures
        spec_install_run(InstallPhase::CheckingCache, events) == InstallPhase::Installed,
        forall|i: int|
            0 <= i < spec_commands_issued(InstallPhase::CheckingCache, events).len()
                ==> spec_commands_issued(InstallPhase::CheckingCache, events)[i]
                != InstallCommand::FetchArchive,
{
    lemma_installed_is_terminal(events.skip(1));
    let cmds = spec_commands_issued(InstallPhase::CheckingCache, events);
    let rest = spec_commands_issued(InstallPhase::Installed, events.skip(1));
    assert(cmds == seq![InstallCommand::ProbeExecutable] + rest);
    assert forall|i: int| 0 <= i < cmds.len() implies cmds[i] != InstallCommand::FetchArchive by {
        if i > 0 {
            assert(cmds[i] == rest[i - 1]);
        }
    }
}

/// Law: a failing download ends the flow at once in the transport failure
/// state; neither the extraction command nor the permission command is ever
/// issued, so the flow writes nothing into the install directory and the
/// expected executable stays absent.
pub proof fn lemma_download_failure_writes_nothing(events: Seq<InstallEvent>)
    requires
        events.len() >= 2,
        events[0] == InstallEvent::ProbeResult(false),
        events[1] == InstallEvent::DownloadFailed,
    ensures
        spec_install_run(InstallPhase::CheckingCache, events) == InstallPhase::Failed(
            InstallFailure::Transport,
        ),
        forall|i: int|
            0 <= i < spec_commands_issued(InstallPhase::CheckingCache, events).len()
                ==> spec_commands_issued(InstallPhase::CheckingCache, events)[i]
                != InstallCommand::ExtractArchive && spec_commands_issued(
                InstallPhase::CheckingCache,
                events,
            )[i] != InstallCommand::MarkExecutables,
{
    let rest2 = events.skip(1).skip(1);
    assert(events.skip(1)[0] == events[1]);
    lemma_failed_is_terminal(InstallFailure::Transport, rest2);
    assert(spec_install_run(InstallPhase::CheckingCache, events) == spec_install_run(
        InstallPhase::Downloading,
        events.skip(1),
    ));
    assert(spec_install_run(InstallPhase::Downloading, events.skip(1)) == spec_install_run(
        InstallPhase::Failed(InstallFailure::Transport),
        rest2,
    ));
    let cmds = spec_commands_issued(InstallPhase::CheckingCache, events);
    let tail = spec_commands_issued(InstallPhase::Failed(InstallFailure::Transport), rest2);
    assert(spec_commands_issued(InstallPhase::Downloading, events.skip(1)) == seq![
        InstallCommand::FetchArchive,
    ] + tail);
    assert(cmds == seq![InstallCommand::ProbeExecutable] + (seq![InstallCommand::FetchArchive]
        + tail));
    assert forall|i: int|
        0 <= i < cmds.len() implies cmds[i] != InstallCommand::ExtractArchive && cmds[i]
        != InstallCommand::MarkExecutables by {
        if i >= 2 {
            assert(cmds[i] == tail[i - 2]);
        }
    }
}

} // verus!
