//! Engine release identifiers.
//!
//! A release identifier has a core portion (such as `4.2.1`) and an optional
//! build tag (such as `stable`).  Its canonical text is the core alone when
//! the build tag is absent, and `core-build` otherwise.  Parsing splits a
//! string on the last occurrence of the `-` separator; a string without the
//! separator is taken whole as the core, never rejected.

use vstd::prelude::*;

verus! {

/// A parsed engine release identifier.
#[derive(Clone, Debug, PartialEq)]
pub struct EngineVersion {
    pub version_string: String,
    pub build_string: Option<String>,
}

/// The mathematical value of an [`EngineVersion`]: the two portions as
/// character sequences.
#[verifier::ext_equal]
pub struct EngineVersionView {
    pub version: Seq<char>,
    pub build: Option<Seq<char>>,
}

impl View for EngineVersion {
    type V = EngineVersionView;

    open spec fn view(&self) -> EngineVersionView {
        EngineVersionView {
            version: self.version_string@,
            build: match self.build_string {
                Some(b) => Some(b@),
                None => None,
            },
        }
    }
}

/// The index of the last `-` in `s`, or `-1` when `s` holds none.
pub open spec fn spec_last_dash(s: Seq<char>) -> int
    decreases s.len(),
{
    if s.len() == 0 {
        -1
    } else if s[s.len() - 1] == '-' {
        s.len() - 1
    } else {
        spec_last_dash(s.drop_last())
    }
}

/// What parsing a string yields: split at the last `-` when one is present,
/// else the whole string as the core with no build tag.
pub open spec fn spec_parse_version(s: Seq<char>) -> EngineVersionView {
    let i = spec_last_dash(s);
    if i >= 0 {
        EngineVersionView { version: s.take(i), build: Some(s.skip(i + 1)) }
    } else {
        EngineVersionView { version: s, build: None }
    }
}

/// The canonical text of a release identifier.
pub open spec fn spec_format_version(v: EngineVersionView) -> Seq<char> {
    match v.build {
        Some(b) => v.version + seq!['-'] + b,
        None => v.version,
    }
}

pub proof fn lemma_last_dash_props(s: Seq<char>)
    ensures
        -1 <= spec_last_dash(s) < s.len(),
        spec_last_dash(s) >= 0 ==> s[spec_last_dash(s)] == '-',
        forall|j: int| spec_last_dash(s) < j < s.len() ==> s[j] != '-',
    decreases s.len(),
{
    if s.len() == 0 {
    } else if s[s.len() - 1] == '-' {
    } else {
        lemma_last_dash_props(s.drop_last());
        assert(forall|j: int| spec_last_dash(s) < j < s.len() - 1 ==> s.drop_last()[j] == s[j]);
    }
}

/// A position holding `-` with none to its right is the last dash.
pub proof fn lemma_last_dash_at(s: Seq<char>, k: int)
    requires
        0 <= k < s.len(),
        s[k] == '-',
        forall|j: int| k < j < s.len() ==> s[j] != '-',
    ensures
        spec_last_dash(s) == k,
    decreases s.len(),
{
    if k < s.len() - 1 {
        assert(s.drop_last()[k] == s[k]);
        assert(forall|j: int| k < j < s.len() - 1 ==> s.drop_last()[j] == s[j]);
        lemma_last_dash_at(s.drop_last(), k);
    }
}

/// A string without `-` has no last dash.
pub proof fn lemma_last_dash_absent(s: Seq<char>)
    requires
        forall|j: int| 0 <= j < s.len() ==> s[j] != '-',
    ensures
        spec_last_dash(s) == -1,
    decreases s.len(),
{
    if s.len() > 0 {
        assert(forall|j: int| 0 <= j < s.len() - 1 ==> s.drop_last()[j] == s[j]);
        lemma_last_dash_absent(s.drop_last());
    }
}

impl EngineVersion {
    /// Splits `s` at the last `-` into a core and a build tag; a string
    /// without the separator becomes the core of a tagless identifier.
    pub fn from_string(s: String) -> (r: EngineVersion)
        ensures
            r@ == spec_parse_version(s@),
    {
        let n = s.as_str().unicode_len();
        let mut i: usize = n;
        while i > 0
            invariant
                i <= n,
                n == s@.len(),
                forall|j: int| i <= j < n ==> s@[j] != '-',
            decreases i,
        {
            if s.as_str().get_char(i - 1) == '-' {
                let core = String::from_str(s.as_str().substring_char(0, i - 1));
                let build = String::from_str(s.as_str().substring_char(i, n));
                proof {
                    lemma_last_dash_at(s@, i - 1);
                }
                let r = EngineVersion { version_string: core, build_string: Some(build) };
                assert(r@ =~= spec_parse_version(s@));
                return r;
            }
            i = i - 1;
        }
        proof {
            lemma_last_dash_absent(s@);
        }
        let r = EngineVersion { version_string: s, build_string: None };
        assert(r@ =~= spec_parse_version(r.version_string@));
        r
    }

    /// The canonical text: the core alone, or `core-build`.
    pub fn to_string(&self) -> (r: String)
        ensures
            r@ == spec_format_version(self@),
    {
        match &self.build_string {
            Some(b) => {
                let mut r = self.version_string.clone();
                r.append("-");
                r.append(b.as_str());
                proof {
                    reveal_strlit("-");
                    assert(r@ =~= spec_format_version(self@));
                }
                r
            },
            None => self.version_string.clone(),
        }
    }
}

/// Law: formatting the parse of any string gives the string back, whether or
/// not it holds the separator.
pub proof fn lemma_parse_format_roundtrip(s: Seq<char>)
    ensures
        spec_format_version(spec_parse_version(s)) == s,
{
    let i = spec_last_dash(s);
    lemma_last_dash_props(s);
    if i >= 0 {
        assert(s.take(i) + seq!['-'] + s.skip(i + 1) =~= s);
    }
}

/// Law: a string without the build separator parses to a tagless identifier
/// whose text is the string itself.
pub proof fn lemma_roundtrip_without_separator(s: Seq<char>)
    requires
        forall|j: int| 0 <= j < s.len() ==> s[j] != '-',
    ensures
        spec_parse_version(s).build is None,
        spec_format_version(spec_parse_version(s)) == s,
{
    lemma_last_dash_absent(s);
}

/// Law: for every core and build, parsing the text `core-build` yields an
/// identifier whose text is `core-build` again.
pub proof fn lemma_roundtrip_core_and_build(core: Seq<char>, build: Seq<char>)
    ensures
        spec_format_version(spec_parse_version(core + seq!['-'] + build)) == core + seq!['-']
            + build,
{
    lemma_parse_format_roundtrip(core + seq!['-'] + build);
}

/// Law: an identifier whose build tag is free of the separator (or, when
/// tagless, whose core is) comes back unchanged from a format-then-parse
/// round trip.  A tagless identifier whose core holds a `-`, or a build tag
/// holding one, re-parses at that dash instead: such values are excluded.
pub proof fn lemma_format_parse_roundtrip(v: EngineVersionView)
    requires
        match v.build {
            Some(b) => forall|j: int| 0 <= j < b.len() ==> b[j] != '-',
            None => forall|j: int| 0 <= j < v.version.len() ==> v.version[j] != '-',
        },
    ensures
        spec_parse_version(spec_format_version(v)) == v,
{
    match v.build {
        Some(b) => {
            let s = v.version + seq!['-'] + b;
            assert(s[v.version.len() as int] == '-');
            assert(forall|j: int| v.version.len() < j < s.len() ==> s[j] != '-');
            lemma_last_dash_at(s, v.version.len() as int);
            assert(s.take(v.version.len() as int) =~= v.version);
            assert(s.skip(v.version.len() as int + 1) =~= b);
            assert(spec_parse_version(spec_format_version(v)) =~= v);
        },
        None => {
            lemma_last_dash_absent(v.version);
        },
    }
}

} // verus!
