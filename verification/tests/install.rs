use gdm::project::versions::{
    InstallCommand, InstallEvent, InstallFailure, InstallMachine, InstallPhase,
};

/// A pretend host: whether the expected executable exists, whether a
/// pre-existing archive sits at the destination path, and whether the
/// network works.
struct FakeHost {
    executable_present: bool,
    destination_archive: Option<&'static str>,
    network_up: bool,
    downloads_performed: usize,
}

impl FakeHost {
    fn perform(&mut self, command: InstallCommand) -> Option<InstallEvent> {
        match command {
            InstallCommand::ProbeExecutable => {
                Some(InstallEvent::ProbeResult(self.executable_present))
            }
            InstallCommand::FetchArchive => {
                self.downloads_performed += 1;
                if self.network_up {
                    self.destination_archive = Some("fresh archive bytes");
                    Some(InstallEvent::DownloadFinished)
                } else {
                    // A failed transfer abandons the scratch file and never
                    // touches the destination.
                    Some(InstallEvent::DownloadFailed)
                }
            }
            InstallCommand::ExtractArchive => {
                self.executable_present = true;
                Some(InstallEvent::ExtractFinished)
            }
            InstallCommand::MarkExecutables => Some(InstallEvent::ExecutablesMarked),
            InstallCommand::RemoveScratch => Some(InstallEvent::ScratchRemoved(true)),
            InstallCommand::Finished => None,
        }
    }
}

fn run_to_completion(host: &mut FakeHost) -> InstallMachine {
    let mut machine = InstallMachine::new();
    while let Some(event) = host.perform(machine.command()) {
        machine.advance(event);
    }
    machine
}

#[test]
fn ensure_installed_twice_downloads_once() {
    let mut host = FakeHost {
        executable_present: false,
        destination_archive: None,
        network_up: true,
        downloads_performed: 0,
    };
    let first = run_to_completion(&mut host);
    assert!(first.is_finished());
    assert_eq!(first.failure(), None);
    assert_eq!(host.downloads_performed, 1);

    let second = run_to_completion(&mut host);
    assert!(second.is_finished());
    assert_eq!(second.failure(), None);
    assert_eq!(host.downloads_performed, 1);
}

#[test]
fn failed_download_leaves_no_executable_and_destination_untouched() {
    let mut host = FakeHost {
        executable_present: false,
        destination_archive: Some("archive from an earlier unrelated run"),
        network_up: false,
        downloads_performed: 0,
    };
    let machine = run_to_completion(&mut host);
    assert_eq!(machine.failure(), Some(InstallFailure::Transport));
    assert!(!host.executable_present);
    assert_eq!(
        host.destination_archive,
        Some("archive from an earlier unrelated run")
    );
}

#[test]
fn failed_download_never_commands_a_write() {
    let mut machine = InstallMachine::new();
    let mut commands = vec![machine.command()];
    machine.advance(InstallEvent::ProbeResult(false));
    commands.push(machine.command());
    machine.advance(InstallEvent::DownloadFailed);
    commands.push(machine.command());
    assert!(!commands.contains(&InstallCommand::ExtractArchive));
    assert!(!commands.contains(&InstallCommand::MarkExecutables));
    assert_eq!(machine.phase, InstallPhase::Failed(InstallFailure::Transport));
}

#[test]
fn happy_path_phases_in_order() {
    let mut machine = InstallMachine::new();
    assert_eq!(machine.phase, InstallPhase::CheckingCache);
    assert_eq!(machine.command(), InstallCommand::ProbeExecutable);
    machine.advance(InstallEvent::ProbeResult(false));
    assert_eq!(machine.phase, InstallPhase::Downloading);
    assert_eq!(machine.command(), InstallCommand::FetchArchive);
    machine.advance(InstallEvent::DownloadFinished);
    assert_eq!(machine.phase, InstallPhase::Extracting);
    assert_eq!(machine.command(), InstallCommand::ExtractArchive);
    machine.advance(InstallEvent::ExtractFinished);
    assert_eq!(machine.phase, InstallPhase::Finalizing);
    assert_eq!(machine.command(), InstallCommand::MarkExecutables);
    machine.advance(InstallEvent::ExecutablesMarked);
    assert_eq!(machine.phase, InstallPhase::CleaningUp);
    assert_eq!(machine.command(), InstallCommand::RemoveScratch);
    machine.advance(InstallEvent::ScratchRemoved(true));
    assert_eq!(machine.phase, InstallPhase::Installed);
    assert_eq!(machine.command(), InstallCommand::Finished);
}

#[test]
fn failed_scratch_removal_is_not_fatal() {
    let mut machine = InstallMachine::new();
    machine.advance(InstallEvent::ProbeResult(false));
    machine.advance(InstallEvent::DownloadFinished);
    machine.advance(InstallEvent::ExtractFinished);
    machine.advance(InstallEvent::ExecutablesMarked);
    machine.advance(InstallEvent::ScratchRemoved(false));
    assert_eq!(machine.phase, InstallPhase::Installed);
    assert_eq!(machine.failure(), None);
}

#[test]
fn unreadable_archive_is_fatal() {
    let mut machine = InstallMachine::new();
    machine.advance(InstallEvent::ProbeResult(false));
    machine.advance(InstallEvent::DownloadFinished);
    machine.advance(InstallEvent::ExtractFailed);
    assert_eq!(machine.failure(), Some(InstallFailure::Archive));
    assert_eq!(machine.command(), InstallCommand::Finished);
}

#[test]
fn mismatched_events_change_nothing() {
    let mut machine = InstallMachine::new();
    machine.advance(InstallEvent::DownloadFinished);
    assert_eq!(machine.phase, InstallPhase::CheckingCache);
    machine.advance(InstallEvent::ProbeResult(true));
    assert_eq!(machine.phase, InstallPhase::Installed);
    machine.advance(InstallEvent::DownloadFailed);
    assert_eq!(machine.phase, InstallPhase::Installed);
}
