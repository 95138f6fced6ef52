//! Project configuration and artifact naming.
//!
//! A project pins a download source, an engine release identifier, and a
//! runtime flavor (standard or managed-runtime).  From these, the naming
//! functions build the install-directory name and the executable file name
//! for a concrete platform, using the token table in [`crate::util::os`].

use crate::project::engine::{spec_format_version, EngineVersion};
use crate::util::os::{spec_os_token, Arch, UnsupportedPlatform, OS};
use vstd::prelude::*;

verus! {

/// Where release metadata and artifacts are fetched from.
#[derive(Clone, Copy, PartialEq, Eq, Structural, Debug)]
pub enum EngineDownloadSource {
    GitHub,
}

/// A source name that no known download source carries.
#[derive(Clone, Copy, PartialEq, Eq, Structural, Debug)]
pub struct InvalidDownloadSource;

/// Whether `s` spells `github`, ignoring ASCII case.
pub open spec fn spec_is_github_name(s: Seq<char>) -> bool {
    &&& s.len() == 6
    &&& (s[0] == 'g' || s[0] == 'G')
    &&& (s[1] == 'i' || s[1] == 'I')
    &&& (s[2] == 't' || s[2] == 'T')
    &&& (s[3] == 'h' || s[3] == 'H')
    &&& (s[4] == 'u' || s[4] == 'U')
    &&& (s[5] == 'b' || s[5] == 'B')
}

impl EngineDownloadSource {
    /// The canonical lower-case name of the source.
    pub fn name(&self) -> (r: &'static str)
        ensures
            r@ == "github"@,
    {
        "github"
    }

    /// Parses a source name, ignoring ASCII case; any other name is
    /// rejected, never defaulted.
    pub fn parse(s: &str) -> (r: Result<EngineDownloadSource, InvalidDownloadSource>)
        ensures
            r is Ok <==> spec_is_github_name(s@),
            r is Ok ==> r->Ok_0 is GitHub,
    {
        let n = s.unicode_len();
        if n != 6 {
            return Err(InvalidDownloadSource);
        }
        let c0 = s.get_char(0);
        let c1 = s.get_char(1);
        let c2 = s.get_char(2);
        let c3 = s.get_char(3);
        let c4 = s.get_char(4);
        let c5 = s.get_char(5);
        if (c0 == 'g' || c0 == 'G') && (c1 == 'i' || c1 == 'I') && (c2 == 't' || c2 == 'T') && (c3
            == 'h' || c3 == 'H') && (c4 == 'u' || c4 == 'U') && (c5 == 'b' || c5 == 'B') {
            Ok(EngineDownloadSource::GitHub)
        } else {
            Err(InvalidDownloadSource)
        }
    }
}

/// The per-project settings the pipeline works from.
pub struct ProjectConfiguration {
    pub download_source: EngineDownloadSource,
    pub version: EngineVersion,
    pub mono: bool,
}

/// The install-directory name (also the artifact base name) for a version
/// text and an artifact-name token.
pub open spec fn spec_engine_name(version_text: Seq<char>, tok: Seq<char>) -> Seq<char> {
    "Godot_v"@ + version_text + "_"@ + tok
}

/// The executable file name: the engine name, a console suffix when asked
/// for, and an `.exe` extension on Windows.
pub open spec fn spec_engine_file_name(
    version_text: Seq<char>,
    tok: Seq<char>,
    console: bool,
    windows: bool,
) -> Seq<char> {
    spec_engine_name(version_text, tok) + (if console {
        "_console"@
    } else {
        Seq::<char>::empty()
    }) + (if windows {
        ".exe"@
    } else {
        Seq::<char>::empty()
    })
}

impl ProjectConfiguration {
    pub fn new(
        version: EngineVersion,
        download_source: EngineDownloadSource,
        mono: bool,
    ) -> (r: ProjectConfiguration)
        ensures
            r.version == version,
            r.download_source == download_source,
            r.mono == mono,
    {
        ProjectConfiguration { download_source, mono, version }
    }

    /// The name of the install directory for this project's version on the
    /// given platform, or the unsupported combination.
    pub fn get_engine_name(&self, os: OS, arch: Arch) -> (r: Result<String, UnsupportedPlatform>)
        ensures
            match r {
                Ok(name) => spec_os_token(os, arch, self.mono) is Some && name@
                    == spec_engine_name(
                    spec_format_version(self.version@),
                    spec_os_token(os, arch, self.mono)->Some_0,
                ),
                Err(e) => spec_os_token(os, arch, self.mono) is None && e == (UnsupportedPlatform {
                    os,
                    arch,
                    mono: self.mono,
                }),
            },
    {
        let tok = match os.get_os_string(arch, self.mono) {
            Ok(tok) => tok,
            Err(e) => {
                return Err(e);
            },
        };
        let mut name = String::from_str("Godot_v");
        let version_text = self.version.to_string();
        name.append(version_text.as_str());
        name.append("_");
        name.append(tok);
        proof {
            assert(name@ =~= spec_engine_name(
                spec_format_version(self.version@),
                spec_os_token(os, arch, self.mono)->Some_0,
            ));
        }
        Ok(name)
    }

    /// The name of the executable inside the install directory, with the
    /// console variant suffix when `console` is set and the platform's
    /// extension when it has one.
    pub fn get_engine_file_name(&self, console: bool, os: OS, arch: Arch) -> (r: Result<
        String,
        UnsupportedPlatform,
    >)
        ensures
            match r {
                Ok(name) => spec_os_token(os, arch, self.mono) is Some && name@
                    == spec_engine_file_name(
                    spec_format_version(self.version@),
                    spec_os_token(os, arch, self.mono)->Some_0,
                    console,
                    os is Windows,
                ),
                Err(e) => spec_os_token(os, arch, self.mono) is None && e == (UnsupportedPlatform {
                    os,
                    arch,
                    mono: self.mono,
                }),
            },
    {
        let mut name = match self.get_engine_name(os, arch) {
            Ok(name) => name,
            Err(e) => {
                return Err(e);
            },
        };
        if console {
            name.append("_console");
        }
        if os.is_windows() {
            name.append(".exe");
        }
        proof {
            assert(name@ =~= spec_engine_file_name(
                spec_format_version(self.version@),
                spec_os_token(os, arch, self.mono)->Some_0,
                console,
                os is Windows,
            ));
        }
        Ok(name)
    }
}

/// Law: install-directory names are distinct for distinct
/// (version, flavor, OS, architecture) combinations, as far as the token
/// table distinguishes them: macOS tokens do not distinguish architectures,
/// and a version text holding `_` could imitate part of a token, so version
/// texts are asked to be free of it.
pub proof fn lemma_engine_name_injective(
    v1: Seq<char>,
    os1: OS,
    arch1: Arch,
    mono1: bool,
    v2: Seq<char>,
    os2: OS,
    arch2: Arch,
    mono2: bool,
)
    requires
        forall|j: int| 0 <= j < v1.len() ==> v1[j] != '_',
        forall|j: int| 0 <= j < v2.len() ==> v2[j] != '_',
        spec_os_token(os1, arch1, mono1) is Some,
        spec_os_token(os2, arch2, mono2) is Some,
        spec_engine_name(v1, spec_os_token(os1, arch1, mono1)->Some_0) == spec_engine_name(
            v2,
            spec_os_token(os2, arch2, mono2)->Some_0,
        ),
    ensures
        v1 == v2,
        os1 == os2,
        mono1 == mono2,
        os1 is MacOS || arch1 == arch2,
{
    reveal_strlit("Godot_v");
    reveal_strlit("_");
    let p = "Godot_v"@;
    let u = "_"@;
    let t1 = spec_os_token(os1, arch1, mono1)->Some_0;
    let t2 = spec_os_token(os2, arch2, mono2)->Some_0;
    let s1 = p + v1 + u + t1;
    let s2 = p + v2 + u + t2;
    assert(s1 == s2);
    if v1.len() < v2.len() {
        let k = 7 + v1.len() as int;
        assert(s1[k] == '_');
        assert(s2[k] == v2[k - 7]);
        assert(false);
    }
    if v2.len() < v1.len() {
        let k = 7 + v2.len() as int;
        assert(s2[k] == '_');
        assert(s1[k] == v1[k - 7]);
        assert(false);
    }
    assert(v1 =~= v2) by {
        assert(forall|i: int|
            0 <= i < v1.len() ==> v1[i] == s1[7 + i] && v2[i] == s2[7 + i]);
    }
    assert(t1 =~= t2) by {
        assert(s1.len() == s2.len());
        assert(forall|i: int|
            0 <= i < t1.len() ==> t1[i] == s1[8 + v1.len() + i] && t2[i] == s2[8 + v2.len() + i]);
    }
    crate::util::os::lemma_os_token_injective(os1, arch1, mono1, os2, arch2, mono2);
}

} // verus!
