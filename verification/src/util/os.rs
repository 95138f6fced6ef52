//! Operating systems, architectures, and the artifact-name token table.
//!
//! Release artifacts are published under names built from an explicit
//! (OS, architecture, flavor) token table.  Combinations outside the table
//! fail with a descriptive error; no name is ever guessed for them.

use vstd::prelude::*;

verus! {

/// The operating systems a release artifact can target.  `Unknown` stands
/// for a host the table does not cover: it never yields a name silently.
#[derive(Clone, Copy, PartialEq, Eq, Structural, Debug)]
pub enum OS {
    Windows,
    Linux,
    MacOS,
    Unknown,
}

/// The processor architectures a release artifact can target.
#[derive(Clone, Copy, PartialEq, Eq, Structural, Debug)]
pub enum Arch {
    X86,
    X64,
    ARM32,
    ARM64,
}

/// A platform combination with no entry in the artifact-name table.
#[derive(Clone, Copy, PartialEq, Eq, Structural, Debug)]
pub struct UnsupportedPlatform {
    pub os: OS,
    pub arch: Arch,
    pub mono: bool,
}

/// The token table: the artifact-name suffix for each supported
/// (OS, architecture, managed-runtime flavor) combination, and `None` for
/// every unsupported one.  macOS artifacts are universal binaries, so the
/// architecture does not enter their token.
pub open spec fn spec_os_token(os: OS, arch: Arch, mono: bool) -> Option<Seq<char>> {
    match (os, arch, mono) {
        (OS::Windows, Arch::X86, false) => Some("win32"@),
        (OS::Windows, Arch::X86, true) => Some("mono_win32"@),
        (OS::Windows, Arch::X64, false) => Some("win64"@),
        (OS::Windows, Arch::X64, true) => Some("mono_win64"@),
        (OS::Windows, Arch::ARM32, _) => None,
        (OS::Windows, Arch::ARM64, _) => None,
        (OS::Linux, Arch::X86, false) => Some("linux.x86_32"@),
        (OS::Linux, Arch::X86, true) => Some("mono_linux_x86_32"@),
        (OS::Linux, Arch::X64, false) => Some("linux.x86_64"@),
        (OS::Linux, Arch::X64, true) => Some("mono_linux_x86_64"@),
        (OS::Linux, Arch::ARM32, false) => Some("linux.arm32"@),
        (OS::Linux, Arch::ARM32, true) => Some("mono_linux_arm32"@),
        (OS::Linux, Arch::ARM64, false) => Some("linux.arm64"@),
        (OS::Linux, Arch::ARM64, true) => Some("mono_linux_arm64"@),
        (OS::MacOS, _, false) => Some("macos.universal"@),
        (OS::MacOS, _, true) => Some("mono_macos.universal"@),
        (OS::Unknown, _, _) => None,
    }
}

impl OS {
    /// Whether this target needs Windows naming (an `.exe` suffix).
    pub fn is_windows(&self) -> (r: bool)
        ensures
            r == (*self is Windows),
    {
        match self {
            OS::Windows => true,
            _ => false,
        }
    }

    /// The artifact-name token for this OS on `arch` with the given flavor,
    /// or the offending combination when the table has no entry for it.
    pub fn get_os_string(&self, arch: Arch, mono: bool) -> (r: Result<
        &'static str,
        UnsupportedPlatform,
    >)
        ensures
            match r {
                Ok(tok) => spec_os_token(*self, arch, mono) == Some(tok@),
                Err(e) => spec_os_token(*self, arch, mono) is None && e == (UnsupportedPlatform {
                    os: *self,
                    arch,
                    mono,
                }),
            },
    {
        match (self, arch, mono) {
            (OS::Windows, Arch::X86, false) => Ok("win32"),
            (OS::Windows, Arch::X86, true) => Ok("mono_win32"),
            (OS::Windows, Arch::X64, false) => Ok("win64"),
            (OS::Windows, Arch::X64, true) => Ok("mono_win64"),
            (OS::Linux, Arch::X86, false) => Ok("linux.x86_32"),
            (OS::Linux, Arch::X86, true) => Ok("mono_linux_x86_32"),
            (OS::Linux, Arch::X64, false) => Ok("linux.x86_64"),
            (OS::Linux, Arch::X64, true) => Ok("mono_linux_x86_64"),
            (OS::Linux, Arch::ARM32, false) => Ok("linux.arm32"),
            (OS::Linux, Arch::ARM32, true) => Ok("mono_linux_arm32"),
            (OS::Linux, Arch::ARM64, false) => Ok("linux.arm64"),
            (OS::Linux, Arch::ARM64, true) => Ok("mono_linux_arm64"),
            (OS::MacOS, _, false) => Ok("macos.universal"),
            (OS::MacOS, _, true) => Ok("mono_macos.universal"),
            _ => Err(UnsupportedPlatform { os: *self, arch, mono }),
        }
    }
}

/// Law: the token table is injective over supported combinations, up to the
/// one documented exception — macOS tokens do not distinguish architectures.
pub proof fn lemma_os_token_injective(
    os1: OS,
    arch1: Arch,
    mono1: bool,
    os2: OS,
    arch2: Arch,
    mono2: bool,
)
    requires
        spec_os_token(os1, arch1, mono1) is Some,
        spec_os_token(os1, arch1, mono1) == spec_os_token(os2, arch2, mono2),
    ensures
        os1 == os2,
        mono1 == mono2,
        os1 is MacOS || arch1 == arch2,
{
    reveal_strlit("win32");
    reveal_strlit("mono_win32");
    reveal_strlit("win64");
    reveal_strlit("mono_win64");
    reveal_strlit("linux.x86_32");
    reveal_strlit("mono_linux_x86_32");
    reveal_strlit("linux.x86_64");
    reveal_strlit("mono_linux_x86_64");
    reveal_strlit("linux.arm32");
    reveal_strlit("mono_linux_arm32");
    reveal_strlit("linux.arm64");
    reveal_strlit("mono_linux_arm64");
    reveal_strlit("macos.universal");
    reveal_strlit("mono_macos.universal");
    assert("win32"@.len() == 5 && "win64"@.len() == 5);
    assert("mono_win32"@.len() == 10 && "mono_win64"@.len() == 10);
    assert("linux.x86_32"@.len() == 12 && "linux.x86_64"@.len() == 12);
    assert("mono_linux_x86_32"@.len() == 17 && "mono_linux_x86_64"@.len() == 17);
    assert("linux.arm32"@.len() == 11 && "linux.arm64"@.len() == 11);
    assert("mono_linux_arm32"@.len() == 16 && "mono_linux_arm64"@.len() == 16);
    assert("macos.universal"@.len() == 15 && "mono_macos.universal"@.len() == 20);
    assert("win32"@[3] == '3' && "win64"@[3] == '6');
    assert("mono_win32"@[8] == '3' && "mono_win64"@[8] == '6');
    assert("linux.x86_32"@[10] == '3' && "linux.x86_64"@[10] == '6');
    assert("mono_linux_x86_32"@[15] == '3' && "mono_linux_x86_64"@[15] == '6');
    assert("linux.arm32"@[9] == '3' && "linux.arm64"@[9] == '6');
    assert("mono_linux_arm32"@[14] == '3' && "mono_linux_arm64"@[14] == '6');
}

} // verus!
