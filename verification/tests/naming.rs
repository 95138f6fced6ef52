use gdm::project::config::{EngineDownloadSource, ProjectConfiguration};
use gdm::project::engine::EngineVersion;
use gdm::project::Project;
use gdm::util::dirs::Dirs;
use gdm::util::os::{Arch, OS};

fn config(version: &str, mono: bool) -> ProjectConfiguration {
    ProjectConfiguration::new(
        EngineVersion::from_string(String::from(version)),
        EngineDownloadSource::GitHub,
        mono,
    )
}

#[test]
fn os_token_table() {
    assert_eq!(OS::Linux.get_os_string(Arch::X64, false), Ok("linux.x86_64"));
    assert_eq!(OS::Linux.get_os_string(Arch::X64, true), Ok("mono_linux_x86_64"));
    assert_eq!(OS::Linux.get_os_string(Arch::ARM64, false), Ok("linux.arm64"));
    assert_eq!(OS::Windows.get_os_string(Arch::X86, false), Ok("win32"));
    assert_eq!(OS::Windows.get_os_string(Arch::X64, true), Ok("mono_win64"));
    assert_eq!(OS::MacOS.get_os_string(Arch::X64, false), Ok("macos.universal"));
    assert_eq!(OS::MacOS.get_os_string(Arch::ARM64, true), Ok("mono_macos.universal"));
}

#[test]
fn unsupported_combinations_fail_with_the_combination() {
    for (os, arch, mono) in [
        (OS::Windows, Arch::ARM32, true),
        (OS::Windows, Arch::ARM32, false),
        (OS::Windows, Arch::ARM64, false),
        (OS::Unknown, Arch::X64, false),
    ] {
        match os.get_os_string(arch, mono) {
            Ok(tok) => panic!("expected no token, got {tok}"),
            Err(e) => {
                assert_eq!(e.os, os);
                assert_eq!(e.arch, arch);
                assert_eq!(e.mono, mono);
            }
        }
    }
}

#[test]
fn distinct_platforms_get_distinct_names() {
    let cfg = config("4.2.1-stable", false);
    let cfg_mono = config("4.2.1-stable", true);
    let mut names = vec![
        cfg.get_engine_name(OS::Linux, Arch::X64).unwrap(),
        cfg.get_engine_name(OS::Linux, Arch::X86).unwrap(),
        cfg.get_engine_name(OS::Windows, Arch::X64).unwrap(),
        cfg.get_engine_name(OS::MacOS, Arch::X64).unwrap(),
        cfg_mono.get_engine_name(OS::Linux, Arch::X64).unwrap(),
        config("4.2.2-stable", false)
            .get_engine_name(OS::Linux, Arch::X64)
            .unwrap(),
    ];
    names.sort();
    let before = names.len();
    names.dedup();
    assert_eq!(names.len(), before);
}

#[test]
fn is_windows_only_for_windows() {
    assert!(OS::Windows.is_windows());
    assert!(!OS::Linux.is_windows());
    assert!(!OS::MacOS.is_windows());
    assert!(!OS::Unknown.is_windows());
}

#[test]
fn end_to_end_linux_naming() {
    let cfg = config("4.2.1-stable", false);
    let dir = cfg.get_engine_name(OS::Linux, Arch::X64).unwrap();
    assert_eq!(dir, "Godot_v4.2.1-stable_linux.x86_64");
    let exe = cfg.get_engine_file_name(false, OS::Linux, Arch::X64).unwrap();
    assert_eq!(exe, "Godot_v4.2.1-stable_linux.x86_64");
    let console = cfg.get_engine_file_name(true, OS::Linux, Arch::X64).unwrap();
    assert_eq!(console, "Godot_v4.2.1-stable_linux.x86_64_console");
}

#[test]
fn windows_executable_gains_extension() {
    let cfg = config("4.2.1-stable", false);
    let exe = cfg.get_engine_file_name(false, OS::Windows, Arch::X64).unwrap();
    assert_eq!(exe, "Godot_v4.2.1-stable_win64.exe");
    let console = cfg.get_engine_file_name(true, OS::Windows, Arch::X64).unwrap();
    assert_eq!(console, "Godot_v4.2.1-stable_win64_console.exe");
}

#[test]
fn engine_name_fails_on_unsupported_platform() {
    let cfg = config("4.2.1-stable", true);
    assert!(cfg.get_engine_name(OS::Windows, Arch::ARM32).is_err());
    assert!(cfg.get_engine_file_name(false, OS::Windows, Arch::ARM32).is_err());
}

#[test]
fn download_source_parsing() {
    assert_eq!(EngineDownloadSource::parse("github"), Ok(EngineDownloadSource::GitHub));
    assert_eq!(EngineDownloadSource::parse("GitHub"), Ok(EngineDownloadSource::GitHub));
    assert_eq!(EngineDownloadSource::parse("GITHUB"), Ok(EngineDownloadSource::GitHub));
    assert!(EngineDownloadSource::parse("gitlab").is_err());
    assert!(EngineDownloadSource::parse("").is_err());
    assert!(EngineDownloadSource::parse("github ").is_err());
    assert_eq!(EngineDownloadSource::GitHub.name(), "github");
}

#[test]
fn project_path_is_the_absolute_directory() {
    let project = Project {
        name: String::from("demo"),
        config: config("4.2.1-stable", false),
        dirs: Dirs {
            project_dir: String::from("."),
            absolute_project_dir: String::from("/home/someone/demo"),
            cache_dir: String::from("/home/someone/.cache/gdm"),
            download_dir: String::from("/home/someone/.cache/gdm/downloads"),
            engines_install_dir: String::from("/home/someone/.local/share/gdm/engines"),
        },
    };
    assert_eq!(project.path(), "/home/someone/demo");
}
