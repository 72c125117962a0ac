//! Path text handling: joining an executable to its working directory,
//! normalizing away `.` and `..` components without touching the file
//! system, and telling an archive's format from its name.
//!
//! Paths are handled as text, portably: both separator characters are
//! recognized, and normalized output uses `/`.

use vstd::prelude::*;

use crate::util::{push_char, str_eq_chars};

verus! {

/// A path separator: either of the two customary characters.
pub open spec fn is_sep_char(c: char) -> bool {
    c == '/' || c == '\\'
}

/// Executable twin of [`is_sep_char`].
fn is_sep(c: char) -> (r: bool)
    ensures
        r == is_sep_char(c),
{
    c == '/' || c == '\\'
}

/// First position at or after `k` that does not hold a separator, or
/// `s.len()`.
pub open spec fn sep_run_end(s: Seq<char>, k: int) -> int
    recommends
        0 <= k <= s.len(),
    decreases s.len() - k when 0 <= k <= s.len()
{
    if k >= s.len() {
        s.len() as int
    } else if is_sep_char(s[k]) {
        sep_run_end(s, k + 1)
    } else {
        k
    }
}

/// First position at or after `k` holding a separator, or `s.len()` if
/// the component runs to the end.
pub open spec fn component_end(s: Seq<char>, k: int) -> int
    recommends
        0 <= k <= s.len(),
    decreases s.len() - k when 0 <= k <= s.len()
{
    if k >= s.len() {
        s.len() as int
    } else if is_sep_char(s[k]) {
        k
    } else {
        component_end(s, k + 1)
    }
}

proof fn lemma_sep_run_end_range(s: Seq<char>, k: int)
    requires
        0 <= k <= s.len(),
    ensures
        k <= sep_run_end(s, k) <= s.len(),
    decreases s.len() - k,
{
    if k < s.len() && is_sep_char(s[k]) {
        lemma_sep_run_end_range(s, k + 1);
    }
}

proof fn lemma_component_end_range(s: Seq<char>, k: int)
    requires
        0 <= k <= s.len(),
    ensures
        k <= component_end(s, k) <= s.len(),
        k < s.len() && !is_sep_char(s[k]) ==> k < component_end(s, k),
    decreases s.len() - k,
{
    if k < s.len() && !is_sep_char(s[k]) {
        lemma_component_end_range(s, k + 1);
    }
}

proof fn lemma_sep_at_run_end(s: Seq<char>, k: int)
    requires
        0 <= k <= s.len(),
    ensures
        sep_run_end(s, k) < s.len() ==> !is_sep_char(s[sep_run_end(s, k)]),
    decreases s.len() - k,
{
    if k < s.len() && is_sep_char(s[k]) {
        lemma_sep_at_run_end(s, k + 1);
    }
}

/// The separator-delimited components of the suffix of `s` from position
/// `i`, in order; runs of separators count as one.
pub open spec fn components_from(s: Seq<char>, i: int) -> Seq<Seq<char>>
    recommends
        0 <= i <= s.len(),
    decreases s.len() - i when 0 <= i <= s.len()
    via components_from_decreases
{
    if i >= s.len() {
        Seq::<Seq<char>>::empty()
    } else {
        let j = sep_run_end(s, i);
        if j >= s.len() {
            Seq::<Seq<char>>::empty()
        } else {
            let e = component_end(s, j);
            seq![s.subrange(j, e)].add(components_from(s, e))
        }
    }
}

#[via_fn]
proof fn components_from_decreases(s: Seq<char>, i: int) {
    if 0 <= i < s.len() {
        lemma_sep_run_end_range(s, i);
        let j = sep_run_end(s, i);
        if j < s.len() {
            lemma_component_end_range(s, j);
            lemma_sep_at_run_end(s, i);
        }
    }
}

/// The components of a path text, in order.
pub open spec fn spec_components(s: Seq<char>) -> Seq<Seq<char>> {
    components_from(s, 0)
}

/// Whether a path text is rooted (begins with a separator).
pub open spec fn is_rooted(s: Seq<char>) -> bool {
    s.len() > 0 && is_sep_char(s[0])
}

/// What one component does to the normalized stack: a `.` is dropped, a
/// `..` pops the latest ordinary component — and is kept when there is
/// none to pop — and everything else is kept.
pub open spec fn norm_step(acc: Seq<Seq<char>>, part: Seq<char>) -> Seq<Seq<char>> {
    if part == "."@ {
        acc
    } else if part == ".."@ {
        if acc.len() > 0 && acc.last() != ".."@ {
            acc.drop_last()
        } else {
            acc.push(part)
        }
    } else {
        acc.push(part)
    }
}

/// The components left after normalizing, in order.
pub open spec fn norm_components(parts: Seq<Seq<char>>) -> Seq<Seq<char>>
    decreases parts.len(),
{
    if parts.len() == 0 {
        Seq::<Seq<char>>::empty()
    } else {
        norm_step(norm_components(parts.drop_last()), parts.last())
    }
}

/// The components joined with `/`, no separator at either end.
pub open spec fn joined(parts: Seq<Seq<char>>) -> Seq<char>
    decreases parts.len(),
{
    if parts.len() == 0 {
        Seq::<char>::empty()
    } else if parts.len() == 1 {
        parts.last()
    } else {
        joined(parts.drop_last()).add(seq!['/']).add(parts.last())
    }
}

/// The normalized form of a path text: its components with `.` and `..`
/// collapsed, joined with `/`, rooted exactly when the input was.
pub open spec fn spec_normalize(s: Seq<char>) -> Seq<char> {
    let parts = norm_components(spec_components(s));
    if is_rooted(s) {
        seq!['/'].add(joined(parts))
    } else {
        joined(parts)
    }
}

/// Splits a path text into its components, in order.
fn components(s: &str) -> (r: Vec<String>)
    ensures
        r@.map_values(|t: String| t@) == spec_components(s@),
{
    let n = s.unicode_len();
    let mut out: Vec<String> = Vec::new();
    let mut i: usize = 0;
    while i < n
        invariant
            n == s@.len(),
            0 <= i <= n,
            spec_components(s@) == out@.map_values(|t: String| t@).add(
                components_from(s@, i as int),
            ),
        decreases n - i,
    {
        if is_sep(s.get_char(i)) {
            proof {
                assert(components_from(s@, i as int) == components_from(s@, i + 1)) by {
                    assert(sep_run_end(s@, i as int) == sep_run_end(s@, i + 1));
                };
            }
            i = i + 1;
        } else {
            let mut e: usize = i;
            while e < n && !is_sep(s.get_char(e))
                invariant
                    n == s@.len(),
                    i <= e <= n,
                    component_end(s@, i as int) == component_end(s@, e as int),
                decreases n - e,
            {
                e = e + 1;
            }
            assert(component_end(s@, i as int) == e);
            let part = s.substring_char(i, e);
            let ghost before = out@;
            out.push(part.to_owned());
            proof {
                assert(sep_run_end(s@, i as int) == i);
                assert(components_from(s@, i as int) == seq![s@.subrange(i as int, e as int)].add(
                    components_from(s@, e as int),
                ));
                assert(out@.map_values(|t: String| t@) =~= before.map_values(
                    |t: String| t@,
                ).push(s@.subrange(i as int, e as int)));
            }
            i = e;
        }
    }
    proof {
        assert(components_from(s@, n as int) =~= Seq::<Seq<char>>::empty());
        assert(out@.map_values(|t: String| t@).add(Seq::<Seq<char>>::empty()) =~= out@.map_values(
            |t: String| t@,
        ));
    }
    out
}

/// Normalizes a path text: collapses `.` components, resolves `..`
/// against the component before it where one exists, keeps the root, and
/// writes the result with `/` separators. The path need not exist; this
/// is text work only.
pub fn normalize_path(path: &str) -> (r: String)
    ensures
        r@ == spec_normalize(path@),
{
    let n = path.unicode_len();
    let rooted = n > 0 && is_sep(path.get_char(0));
    let parts = components(path);
    let ghost part_views = parts@.map_values(|t: String| t@);
    let mut stack: Vec<String> = Vec::new();
    let count = parts.len();
    let mut i: usize = 0;
    while i < count
        invariant
            count == parts@.len(),
            0 <= i <= count,
            part_views == parts@.map_values(|t: String| t@),
            stack@.map_values(|t: String| t@) == norm_components(part_views.take(i as int)),
        decreases count - i,
    {
        let part = &parts[i];
        proof {
            assert(part_views.take(i + 1).drop_last() =~= part_views.take(i as int));
            assert(part_views.take(i + 1).last() == part_views[i as int]);
            assert(part_views[i as int] == part@);
        }
        let ghost stack_before = stack@;
        if str_eq_chars(part.as_str(), ".") {
            // Dropped.
        } else if str_eq_chars(part.as_str(), "..") {
            let len = stack.len();
            if len > 0 && !str_eq_chars(stack[len - 1].as_str(), "..") {
                stack.pop();
                proof {
                    assert(stack@.map_values(|t: String| t@) =~= stack_before.map_values(
                        |t: String| t@,
                    ).drop_last());
                }
            } else {
                stack.push(part.as_str().to_owned());
                proof {
                    assert(stack@.map_values(|t: String| t@) =~= stack_before.map_values(
                        |t: String| t@,
                    ).push(part@));
                }
            }
        } else {
            stack.push(part.as_str().to_owned());
            proof {
                assert(stack@.map_values(|t: String| t@) =~= stack_before.map_values(
                    |t: String| t@,
                ).push(part@));
            }
        }
        proof {
            if stack_before.len() > 0 {
                assert(stack_before.map_values(|t: String| t@).last() == stack_before.last()@);
            }
            assert(stack@.map_values(|t: String| t@) =~= norm_step(
                stack_before.map_values(|t: String| t@),
                part_views[i as int],
            ));
        }
        i = i + 1;
    }
    proof {
        assert(part_views.take(count as int) =~= part_views);
    }
    // Join the surviving components.
    let mut out = String::new();
    if rooted {
        push_char(&mut out, '/');
    }
    let ghost root_prefix = out@;
    let ghost stack_views = stack@.map_values(|t: String| t@);
    let m = stack.len();
    let mut j: usize = 0;
    while j < m
        invariant
            m == stack@.len(),
            0 <= j <= m,
            stack_views == stack@.map_values(|t: String| t@),
            out@ == root_prefix.add(joined(stack_views.take(j as int))),
        decreases m - j,
    {
        if j > 0 {
            push_char(&mut out, '/');
        }
        out.append(stack[j].as_str());
        proof {
            assert(stack_views.take(j + 1).drop_last() =~= stack_views.take(j as int));
            assert(stack_views.take(j + 1).last() == stack_views[j as int]);
            assert(stack_views[j as int] == stack@[j as int]@);
            if j == 0 {
                assert(out@ =~= root_prefix.add(joined(stack_views.take(1))));
            } else {
                assert(out@ =~= root_prefix.add(joined(stack_views.take(j + 1))));
            }
        }
        j = j + 1;
    }
    proof {
        assert(stack_views.take(m as int) =~= stack_views);
        if rooted {
            assert(out@ =~= spec_normalize(path@));
        } else {
            assert(root_prefix =~= Seq::<char>::empty());
            assert(root_prefix.add(joined(stack_views)) =~= joined(stack_views));
        }
    }
    out
}

/// What joining a relative text to a base text yields: a rooted relative
/// text stands alone; otherwise it is appended to the base with a single
/// separator between them.
pub open spec fn spec_join(base: Seq<char>, rel: Seq<char>) -> Seq<char> {
    if is_rooted(rel) {
        rel
    } else if base.len() == 0 {
        rel
    } else if is_sep_char(base.last()) {
        base.add(rel)
    } else {
        base.add(seq!['/']).add(rel)
    }
}

/// Joins a relative path text to a base directory, as resolving an agent
/// executable against the caller's working directory does.
pub fn join_path(base: &str, rel: &str) -> (r: String)
    ensures
        r@ == spec_join(base@, rel@),
{
    let rel_len = rel.unicode_len();
    if rel_len > 0 && is_sep(rel.get_char(0)) {
        return rel.to_owned();
    }
    let base_len = base.unicode_len();
    if base_len == 0 {
        return rel.to_owned();
    }
    let mut out = base.to_owned();
    if !is_sep(base.get_char(base_len - 1)) {
        push_char(&mut out, '/');
        proof {
            assert(out@ =~= base@.add(seq!['/']));
        }
    }
    out.append(rel);
    out
}

/// Resolves an agent executable against the caller's working directory:
/// the join, normalized — redundant components collapse without the path
/// having to exist.
pub fn resolve_exec_path(cwd: &str, child_exec: &str) -> (r: String)
    ensures
        r@ == spec_normalize(spec_join(cwd@, child_exec@)),
{
    let joined_path = join_path(cwd, child_exec);
    normalize_path(joined_path.as_str())
}

/// The archive formats an update package arrives in.
#[derive(Clone, Copy, Debug, PartialEq, Eq, Structural)]
pub enum ArchiveKind {
    Zip,
    TarGz,
}

/// The character folded to ASCII lower case, as a numeric code.
pub open spec fn ascii_lower(c: char) -> int {
    if 0x41 <= c as u32 && c as u32 <= 0x5a {
        c as u32 + 0x20
    } else {
        c as u32 as int
    }
}

/// Whether `s` ends with `suffix`, comparing ASCII letters without case.
pub open spec fn has_suffix_ci(s: Seq<char>, suffix: Seq<char>) -> bool {
    &&& s.len() >= suffix.len()
    &&& forall|i: int|
        0 <= i < suffix.len() ==> ascii_lower(s[s.len() - suffix.len() + i]) == ascii_lower(
            #[trigger] suffix[i],
        )
}

/// Tests a case-insensitive suffix.
fn ends_with_ci(s: &str, suffix: &str) -> (r: bool)
    ensures
        r == has_suffix_ci(s@, suffix@),
{
    let n = s.unicode_len();
    let m = suffix.unicode_len();
    if n < m {
        return false;
    }
    let mut i: usize = 0;
    while i < m
        invariant
            n == s@.len(),
            m == suffix@.len(),
            m <= n,
            0 <= i <= m,
            forall|k: int|
                0 <= k < i ==> ascii_lower(s@[n - m + k]) == ascii_lower(#[trigger] suffix@[k]),
        decreases m - i,
    {
        let a = s.get_char(n - m + i) as u32;
        let b = suffix.get_char(i) as u32;
        let a_low = if 0x41 <= a && a <= 0x5a {
            a + 0x20
        } else {
            a
        };
        let b_low = if 0x41 <= b && b <= 0x5a {
            b + 0x20
        } else {
            b
        };
        if a_low != b_low {
            return false;
        }
        i = i + 1;
    }
    true
}

/// The archive format a package name announces: the compressed-tape
/// suffixes, compared without case, mean a gzip-compressed tar archive;
/// everything else is read as a zip archive.
pub fn archive_kind(path: &str) -> (r: ArchiveKind)
    ensures
        r == (if has_suffix_ci(path@, ".tar.gz"@) || has_suffix_ci(path@, ".tgz"@) {
            ArchiveKind::TarGz
        } else {
            ArchiveKind::Zip
        }),
{
    if ends_with_ci(path, ".tar.gz") || ends_with_ci(path, ".tgz") {
        ArchiveKind::TarGz
    } else {
        ArchiveKind::Zip
    }
}


/// What the Unicode lowercase mapping makes of a text.
pub uninterp spec fn lower_of(s: Seq<char>) -> Seq<char>;

/// Relies on `str::to_lowercase`: the Unicode lowercase mapping of the
/// text; the result depends on the characters alone.
#[verifier::external_body]
fn lowercase(s: &str) -> (r: String)
    ensures
        r@ == lower_of(s@),
{
    s.to_lowercase()
}

/// Whether two path texts name the same thing once case is folded, as
/// the process scan compares a target program against each running
/// process's image path (and, as a prefilter, their file names).
pub fn same_path_folded(a: &str, b: &str) -> (r: bool)
    ensures
        r == (lower_of(a@) == lower_of(b@)),
{
    let folded_a = lowercase(a);
    let folded_b = lowercase(b);
    folded_a.eq(&folded_b)
}

/// The file name of a path text: its last component, or nothing when the
/// text holds no component at all.
pub fn file_name(path: &str) -> (r: Option<String>)
    ensures
        match r {
            Some(name) => spec_components(path@).len() > 0 && name@ == spec_components(
                path@,
            ).last(),
            None => spec_components(path@).len() == 0,
        },
{
    let mut parts = components(path);
    let ghost views = parts@.map_values(|t: String| t@);
    let last = parts.pop();
    proof {
        if views.len() > 0 {
            assert(views.last() == parts@.push(last->0)[views.len() - 1]@);
        }
    }
    last
}


/// Normalizes every bundle path of a resource load request, in order,
/// before each is posted to the engine.
pub fn normalize_paths(paths: &Vec<String>) -> (r: Vec<String>)
    ensures
        r@.len() == paths@.len(),
        forall|i: int|
            0 <= i < paths@.len() ==> #[trigger] r@[i]@ == spec_normalize(paths@[i]@),
{
    let mut out: Vec<String> = Vec::new();
    let n = paths.len();
    let mut i: usize = 0;
    while i < n
        invariant
            n == paths@.len(),
            0 <= i <= n,
            out@.len() == i,
            forall|k: int| 0 <= k < i ==> #[trigger] out@[k]@ == spec_normalize(paths@[k]@),
        decreases n - i,
    {
        out.push(normalize_path(paths[i].as_str()));
        i = i + 1;
    }
    out
}

} // verus!


