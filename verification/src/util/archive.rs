//! Archive extraction planning.
//!
//! Release archives are packaged inconsistently: some wrap all content in a
//! single spurious top-level directory, some do not.  The planner works on
//! the list of entry paths alone, so it is independent of any archive I/O:
//! it decides whether a shared top-level component should be stripped, and
//! maps every entry to the relative path it should be extracted to, to a
//! directory creation, or to a skip.
//!
//! Entry paths use `/` as the separator, as archive entries do.  An entry is
//! safe when it is non-empty, not absolute, and holds no `..` component;
//! unsafe entries are skipped, never extracted and never fatal.  Stripping
//! requires at least two entries whose first path component is identical;
//! an entry that becomes empty once that component is removed was the
//! wrapper directory itself and is skipped, and one that becomes absolute
//! (a doubled separator after the wrapper) is skipped for the same reason:
//! every path the planner emits resolves inside the target directory.

use vstd::prelude::*;

verus! {

/// The index of the first `/` in `s`, or `s.len()` when `s` holds none.
pub open spec fn spec_first_slash(s: Seq<char>) -> int
    decreases s.len(),
{
    if s.len() == 0 {
        0
    } else if s[0] == '/' {
        0
    } else {
        1 + spec_first_slash(s.skip(1))
    }
}

/// The first path component of `s`: everything before the first `/`.
pub open spec fn spec_first_component(s: Seq<char>) -> Seq<char> {
    s.take(spec_first_slash(s))
}

/// What remains of `s` once its first component and the separator after it
/// are removed; empty when `s` has a single component.
pub open spec fn spec_stripped(s: Seq<char>) -> Seq<char> {
    if spec_first_slash(s) < s.len() {
        s.skip(spec_first_slash(s) + 1)
    } else {
        Seq::<char>::empty()
    }
}

/// A `..` path component starts at index `i` of `s`.
pub open spec fn spec_dotdot_at(s: Seq<char>, i: int) -> bool {
    &&& 0 <= i
    &&& i + 2 <= s.len()
    &&& s[i] == '.'
    &&& s[i + 1] == '.'
    &&& (i == 0 || s[i - 1] == '/')
    &&& (i + 2 == s.len() || s[i + 2] == '/')
}

/// `s` holds a `..` path component somewhere.
pub open spec fn spec_has_dotdot(s: Seq<char>) -> bool {
    exists|i: int| spec_dotdot_at(s, i)
}

/// An entry path that can be resolved to a place inside the target
/// directory: non-empty, relative, and free of `..` components.
pub open spec fn spec_safe_entry(s: Seq<char>) -> bool {
    s.len() > 0 && s[0] != '/' && !spec_has_dotdot(s)
}

/// Every entry shares the first entry's first path component.
pub open spec fn spec_shared_top_level(entries: Seq<Seq<char>>) -> bool {
    forall|i: int|
        0 <= i < entries.len() ==> spec_first_component(#[trigger] entries[i])
            == spec_first_component(entries[0])
}

/// The stripping heuristic: a shared top-level component counts as a
/// spurious wrapper only when at least two entries sit under it.
pub open spec fn spec_should_strip(entries: Seq<Seq<char>>) -> bool {
    entries.len() >= 2 && spec_shared_top_level(entries)
}

/// Whether extraction strips, given the caller's request: `Some(false)`
/// forbids stripping, anything else leaves it to the heuristic.
pub open spec fn spec_strip_decision(entries: Seq<Seq<char>>, requested: Option<bool>) -> bool {
    (match requested {
        Some(b) => b,
        None => true,
    }) && spec_should_strip(entries)
}

/// What one entry contributes to the extraction: `None` to skip it, or the
/// relative output path together with whether it is a directory entry
/// (a path ending in the separator).  A stripped path that comes out empty
/// (the wrapper entry itself) or absolute (a doubled separator right after
/// the wrapper, as in `a//b`) cannot be resolved to a place inside the
/// target and is skipped like any other unsafe path.
pub open spec fn spec_entry_output(s: Seq<char>, strip: bool) -> Option<(Seq<char>, bool)> {
    if !spec_safe_entry(s) {
        None
    } else {
        let p = if strip {
            spec_stripped(s)
        } else {
            s
        };
        if p.len() == 0 || p[0] == '/' {
            None
        } else {
            Some((p, s[s.len() - 1] == '/'))
        }
    }
}

/// The entry paths of an archive listing, as character sequences.
pub open spec fn spec_entry_views(entries: Seq<String>) -> Seq<Seq<char>> {
    Seq::new(entries.len(), |i: int| entries[i]@)
}

pub proof fn lemma_first_slash_props(s: Seq<char>)
    ensures
        0 <= spec_first_slash(s) <= s.len(),
        spec_first_slash(s) < s.len() ==> s[spec_first_slash(s)] == '/',
        forall|j: int| 0 <= j < spec_first_slash(s) ==> s[j] != '/',
    decreases s.len(),
{
    if s.len() == 0 {
    } else if s[0] == '/' {
    } else {
        lemma_first_slash_props(s.skip(1));
        assert forall|j: int| 0 <= j < spec_first_slash(s) implies s[j] != '/' by {
            if j > 0 {
                assert(s.skip(1)[j - 1] == s[j]);
            }
        }
    }
}

/// A `/` with none before it sits at the first-slash index.
pub proof fn lemma_first_slash_found(s: Seq<char>, k: int)
    requires
        0 <= k < s.len(),
        s[k] == '/',
        forall|j: int| 0 <= j < k ==> s[j] != '/',
    ensures
        spec_first_slash(s) == k,
    decreases s.len(),
{
    if k > 0 {
        assert(forall|j: int| 0 <= j < k - 1 ==> s.skip(1)[j] == s[j + 1]);
        assert(s.skip(1)[k - 1] == s[k]);
        lemma_first_slash_found(s.skip(1), k - 1);
    }
}

/// A path without `/` has its first-slash index at its end.
pub proof fn lemma_first_slash_absent(s: Seq<char>)
    requires
        forall|j: int| 0 <= j < s.len() ==> s[j] != '/',
    ensures
        spec_first_slash(s) == s.len(),
    decreases s.len(),
{
    if s.len() > 0 {
        assert(forall|j: int| 0 <= j < s.len() - 1 ==> s.skip(1)[j] == s[j + 1]);
        lemma_first_slash_absent(s.skip(1));
    }
}

/// The index of the first `/` in `s`, or its length when it holds none.
pub fn first_slash_index(s: &str) -> (r: usize)
    ensures
        r == spec_first_slash(s@),
{
    let n = s.unicode_len();
    let mut i: usize = 0;
    while i < n
        invariant
            0 <= i <= n,
            n == s@.len(),
            forall|j: int| 0 <= j < i ==> s@[j] != '/',
        decreases n - i,
    {
        if s.get_char(i) == '/' {
            proof {
                lemma_first_slash_found(s@, i as int);
            }
            return i;
        }
        i = i + 1;
    }
    proof {
        lemma_first_slash_absent(s@);
    }
    n
}

/// Whether `s` can be extracted somewhere inside the target directory.
pub fn is_safe_entry(s: &str) -> (r: bool)
    ensures
        r == spec_safe_entry(s@),
{
    let n = s.unicode_len();
    if n == 0 {
        return false;
    }
    if s.get_char(0) == '/' {
        return false;
    }
    let mut i: usize = 0;
    while n >= 2 && i <= n - 2
        invariant
            0 <= i <= n,
            n == s@.len(),
            forall|k: int| 0 <= k < i ==> !spec_dotdot_at(s@, k),
        decreases n - i,
    {
        let dotdot = s.get_char(i) == '.' && s.get_char(i + 1) == '.';
        let starts_component = i == 0 || s.get_char(i - 1) == '/';
        let ends_component = i + 2 == n || s.get_char(i + 2) == '/';
        if dotdot && starts_component && ends_component {
            assert(spec_dotdot_at(s@, i as int));
            return false;
        }
        assert(!spec_dotdot_at(s@, i as int));
        i = i + 1;
    }
    assert(forall|k: int| spec_dotdot_at(s@, k) ==> 0 <= k < i);
    true
}

/// Whether the first `n` characters of `a` and `b` agree.
fn prefixes_equal(a: &str, b: &str, n: usize) -> (r: bool)
    requires
        n <= a@.len(),
        n <= b@.len(),
    ensures
        r == (a@.take(n as int) == b@.take(n as int)),
{
    let mut i: usize = 0;
    while i < n
        invariant
            0 <= i <= n,
            n <= a@.len(),
            n <= b@.len(),
            forall|j: int| 0 <= j < i ==> a@[j] == b@[j],
        decreases n - i,
    {
        if a.get_char(i) != b.get_char(i) {
            proof {
                assert(a@.take(n as int)[i as int] != b@.take(n as int)[i as int]);
            }
            return false;
        }
        i = i + 1;
    }
    proof {
        assert(a@.take(n as int) =~= b@.take(n as int));
    }
    true
}

/// Whether every entry shares the first entry's first path component.
pub fn entries_share_top_level(entries: &Vec<String>) -> (r: bool)
    ensures
        r == spec_shared_top_level(spec_entry_views(entries@)),
{
    let ghost es = spec_entry_views(entries@);
    if entries.len() == 0 {
        return true;
    }
    let f0 = first_slash_index(entries[0].as_str());
    proof {
        lemma_first_slash_props(entries@[0]@);
    }
    let mut i: usize = 1;
    while i < entries.len()
        invariant
            1 <= i <= entries@.len(),
            es == spec_entry_views(entries@),
            f0 == spec_first_slash(entries@[0]@),
            f0 <= entries@[0]@.len(),
            forall|k: int|
                0 <= k < i ==> spec_first_component(#[trigger] es[k]) == spec_first_component(
                    es[0],
                ),
        decreases entries@.len() - i,
    {
        let fi = first_slash_index(entries[i].as_str());
        proof {
            lemma_first_slash_props(entries@[i as int]@);
        }
        if fi != f0 {
            proof {
                assert(spec_first_component(es[i as int]).len() == fi);
                assert(spec_first_component(es[0]).len() == f0);
            }
            return false;
        }
        if !prefixes_equal(entries[i].as_str(), entries[0].as_str(), f0) {
            proof {
                assert(spec_first_component(es[i as int]) != spec_first_component(es[0]));
            }
            return false;
        }
        i = i + 1;
    }
    true
}

/// The stripping heuristic over an archive's entry list.
pub fn should_strip_entries(entries: &Vec<String>) -> (r: bool)
    ensures
        r == spec_should_strip(spec_entry_views(entries@)),
{
    entries.len() >= 2 && entries_share_top_level(entries)
}

/// One entry's place in an extraction: a relative output path and whether
/// the entry names a directory.
pub struct ExtractTarget {
    pub rel_path: String,
    pub is_dir: bool,
}

/// Maps every entry of an archive to what extraction does with it: `None`
/// to skip it (an unsafe path, or one that stripping leaves empty or
/// absolute), or the relative output path and directory flag.  Stripping
/// happens when the caller has not forbidden it and the heuristic detects a
/// shared top-level component over at least two entries.
pub fn plan_extraction(entries: &Vec<String>, strip_top_level: Option<bool>) -> (plan: Vec<
    Option<ExtractTarget>,
>)
    ensures
        plan@.len() == entries@.len(),
        forall|i: int|
            0 <= i < entries@.len() ==> match #[trigger] plan@[i] {
                Some(t) => spec_entry_output(
                    entries@[i]@,
                    spec_strip_decision(spec_entry_views(entries@), strip_top_level),
                ) == Some((t.rel_path@, t.is_dir)),
                None => spec_entry_output(
                    entries@[i]@,
                    spec_strip_decision(spec_entry_views(entries@), strip_top_level),
                ) is None,
            },
{
    let allow = match strip_top_level {
        Some(b) => b,
        None => true,
    };
    let strip = allow && should_strip_entries(entries);
    let ghost d = spec_strip_decision(spec_entry_views(entries@), strip_top_level);
    assert(strip == d);
    let mut plan: Vec<Option<ExtractTarget>> = Vec::new();
    let mut idx: usize = 0;
    while idx < entries.len()
        invariant
            0 <= idx <= entries@.len(),
            plan@.len() == idx,
            d == spec_strip_decision(spec_entry_views(entries@), strip_top_level),
            strip == d,
            forall|i: int|
                0 <= i < idx ==> match #[trigger] plan@[i] {
                    Some(t) => spec_entry_output(entries@[i]@, d) == Some((t.rel_path@, t.is_dir)),
                    None => spec_entry_output(entries@[i]@, d) is None,
                },
        decreases entries@.len() - idx,
    {
        let e = entries[idx].as_str();
        let step: Option<ExtractTarget> = if !is_safe_entry(e) {
            None
        } else {
            let n = e.unicode_len();
            let rel: String = if strip {
                let f = first_slash_index(e);
                proof {
                    lemma_first_slash_props(e@);
                }
                if f < n {
                    String::from_str(e.substring_char(f + 1, n))
                } else {
                    String::new()
                }
            } else {
                String::from_str(e)
            };
            let m = rel.as_str().unicode_len();
            if m == 0 || rel.as_str().get_char(0) == '/' {
                None
            } else {
                let is_dir = e.get_char(n - 1) == '/';
                Some(ExtractTarget { rel_path: rel, is_dir })
            }
        };
        plan.push(step);
        idx = idx + 1;
    }
    plan
}

/// Removing the first component of a path free of `..` components leaves a
/// path free of them: each component boundary of the remainder was one of
/// the whole.
proof fn lemma_stripped_keeps_no_dotdot(s: Seq<char>)
    requires
        !spec_has_dotdot(s),
    ensures
        !spec_has_dotdot(spec_stripped(s)),
{
    let fs = spec_first_slash(s);
    lemma_first_slash_props(s);
    if fs < s.len() {
        let p = s.skip(fs + 1);
        if spec_has_dotdot(p) {
            let i = choose|i: int| spec_dotdot_at(p, i);
            assert(p[i] == s[i + fs + 1]);
            assert(p[i + 1] == s[i + fs + 2]);
            assert(i > 0 ==> p[i - 1] == s[i + fs]);
            assert(i + 2 < p.len() ==> p[i + 2] == s[i + fs + 3]);
            assert(spec_dotdot_at(s, i + fs + 1));
        }
    }
}

/// Law: every path the planner emits is non-empty, relative, and free of
/// `..` components — a safe entry path in its own right — so the
/// application's join lands inside the target directory; an entry that
/// cannot be resolved to such a path is skipped, not written.
pub proof fn lemma_planned_outputs_are_safe(s: Seq<char>, strip: bool)
    ensures
        spec_entry_output(s, strip) matches Some(out) ==> spec_safe_entry(out.0),
{
    if spec_entry_output(s, strip) is Some && strip {
        lemma_stripped_keeps_no_dotdot(s);
    }
}

/// Law: with fewer than two entries the heuristic never strips, whatever
/// the caller allows.
pub proof fn lemma_single_entry_not_stripped(es: Seq<Seq<char>>, requested: Option<bool>)
    requires
        es.len() < 2,
    ensures
        !spec_should_strip(es),
        !spec_strip_decision(es, requested),
{
}

/// Law: when two entries differ in their first path component, nothing is
/// stripped and every safe entry keeps its path verbatim.
pub proof fn lemma_distinct_top_levels_not_stripped(
    es: Seq<Seq<char>>,
    requested: Option<bool>,
    i: int,
    j: int,
)
    requires
        0 <= i < es.len(),
        0 <= j < es.len(),
        spec_first_component(es[i]) != spec_first_component(es[j]),
    ensures
        !spec_should_strip(es),
        !spec_strip_decision(es, requested),
        forall|k: int|
            0 <= k < es.len() && spec_safe_entry(es[k]) ==> spec_entry_output(es[k], false)
                == Some((es[k], es[k][es[k].len() - 1] == '/')),
{
}

/// Law: when every one of at least two entries starts with the component
/// `c` followed by the separator, the heuristic strips: the wrapper
/// component heads no planned output path — each extracted entry keeps
/// exactly what followed `c/`, and the wrapper entry itself is skipped.
pub proof fn lemma_wrapper_directory_stripped(es: Seq<Seq<char>>, c: Seq<char>)
    requires
        es.len() >= 2,
        c.len() > 0,
        forall|j: int| 0 <= j < c.len() ==> c[j] != '/',
        forall|k: int|
            0 <= k < es.len() ==> es[k].len() > c.len() && #[trigger] es[k].take(c.len() as int + 1) == c
                + seq!['/'],
    ensures
        spec_should_strip(es),
        forall|k: int|
            0 <= k < es.len() ==> (#[trigger] spec_entry_output(es[k], true) matches Some(out)
                ==> out.0 == es[k].skip(c.len() as int + 1)),
        forall|k: int|
            0 <= k < es.len() && es[k].len() == c.len() + 1 ==> #[trigger] spec_entry_output(
                es[k],
                true,
            ) is None,
{
    assert forall|k: int|
        0 <= k < es.len() implies spec_first_slash(#[trigger] es[k]) == c.len()
        && spec_first_component(es[k]) == c by {
        let cl = c.len() as int;
        let e = es[k];
        assert(e.take(cl + 1) == c + seq!['/']);
        assert forall|j: int| 0 <= j < cl implies e[j] != '/' by {
            assert(e[j] == e.take(cl + 1)[j]);
            assert(e.take(cl + 1)[j] == c[j]);
        }
        assert(e[cl] == e.take(cl + 1)[cl]);
        lemma_first_slash_found(e, cl);
        assert(spec_first_component(e) =~= c);
    }
    assert forall|k: int|
        0 <= k < es.len() && es[k].len() == c.len() + 1 implies #[trigger] spec_entry_output(
        es[k],
        true,
    ) is None by {
        assert(spec_stripped(es[k]).len() == 0);
    }
}

} // verus!
