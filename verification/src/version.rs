//! Engine version compatibility: whether the loaded engine is recent
//! enough, and the user agent this build announces.

use vstd::prelude::*;

use crate::util::push_char;

verus! {

/// The oldest engine version this layer supports.
pub const MIN_MAAFW_VERSION: &'static str = "5.5.0-beta.1";

/// The outcome of a version check, for the front end.
#[derive(Debug, Clone)]
pub struct VersionCheckResult {
    /// The engine's version text, as reported.
    pub current: String,
    /// The minimum supported version, with its `v` prefix.
    pub minimum: String,
    /// Whether the current version satisfies the minimum. A version text
    /// that does not parse (a development build) counts as incompatible.
    pub is_compatible: bool,
}

/// Whether a text is a well-formed semantic version.
pub uninterp spec fn semver_ok(s: Seq<char>) -> bool;

/// Whether version `a` is at least version `b`, by the version library's
/// total order: semantic-version precedence, with build metadata as the
/// final tie-breaker (meaningful when both are well-formed).
pub uninterp spec fn semver_ge_of(a: Seq<char>, b: Seq<char>) -> bool;

/// Relies on `semver::Version::parse`: whether the text is a well-formed
/// semantic version.
#[verifier::external_body]
fn semver_valid(s: &str) -> (r: bool)
    ensures
        r == semver_ok(s@),
{
    semver::Version::parse(s).is_ok()
}

/// Relies on `semver::Version::parse` and the total order
/// `semver::Version` defines (semantic-version precedence, with build
/// metadata as the final tie-breaker): whether `a` is at least `b`.
#[verifier::external_body]
fn semver_at_least(a: &str, b: &str) -> (r: bool)
    requires
        semver_ok(a@),
        semver_ok(b@),
    ensures
        r == semver_ge_of(a@, b@),
{
    match (semver::Version::parse(a), semver::Version::parse(b)) {
        (Ok(va), Ok(vb)) => va >= vb,
        _ => false,
    }
}

/// First position at or after `k` that does not hold a `v`, or `s.len()`.
pub open spec fn v_run_end(s: Seq<char>, k: int) -> int
    recommends
        0 <= k <= s.len(),
    decreases s.len() - k when 0 <= k <= s.len()
{
    if k >= s.len() {
        s.len() as int
    } else if s[k] == 'v' {
        v_run_end(s, k + 1)
    } else {
        k
    }
}

/// The version text with every leading `v` removed.
pub open spec fn spec_trim_v(s: Seq<char>) -> Seq<char> {
    s.subrange(v_run_end(s, 0), s.len() as int)
}

proof fn lemma_v_run_end_range(s: Seq<char>, k: int)
    requires
        0 <= k <= s.len(),
    ensures
        k <= v_run_end(s, k) <= s.len(),
    decreases s.len() - k,
{
    if k < s.len() && s[k] == 'v' {
        lemma_v_run_end_range(s, k + 1);
    }
}

/// Strips the customary `v` prefix (all leading `v` characters) off a
/// version text.
pub fn trim_v(s: &str) -> (r: String)
    ensures
        r@ == spec_trim_v(s@),
{
    let n = s.unicode_len();
    let mut i: usize = 0;
    while i < n && s.get_char(i) == 'v'
        invariant
            n == s@.len(),
            0 <= i <= n,
            v_run_end(s@, 0) == v_run_end(s@, i as int),
        decreases n - i,
    {
        i = i + 1;
    }
    assert(v_run_end(s@, 0) == i);
    let rest = s.substring_char(i, n);
    rest.to_owned()
}

/// Why a version check could not run at all.
#[derive(Clone, Copy, Debug, PartialEq, Eq, Structural)]
pub enum VersionError {
    /// The built-in minimum version text does not parse; nothing can be
    /// compared against it.
    MinimumUnparseable,
}

/// Checks the reported engine version against the built-in minimum.
///
/// Both texts lose their `v` prefix before parsing. A current version
/// that does not parse — a development build — is reported incompatible
/// rather than failing the check; only an unparseable minimum fails it.
pub fn maa_check_version(current: &str) -> (r: Result<VersionCheckResult, VersionError>)
    ensures
        r is Ok <==> semver_ok(spec_trim_v(MIN_MAAFW_VERSION@)),
        r is Err ==> r->Err_0 == VersionError::MinimumUnparseable,
        r matches Ok(res) ==> {
            &&& res.current@ == current@
            &&& res.minimum@ == seq!['v'].add(MIN_MAAFW_VERSION@)
            &&& res.is_compatible == (semver_ok(spec_trim_v(current@)) && semver_ge_of(
                spec_trim_v(current@),
                spec_trim_v(MIN_MAAFW_VERSION@),
            ))
        },
{
    let min_clean = trim_v(MIN_MAAFW_VERSION);
    if !semver_valid(min_clean.as_str()) {
        return Err(VersionError::MinimumUnparseable);
    }
    let current_clean = trim_v(current);
    let is_compatible = if semver_valid(current_clean.as_str()) {
        semver_at_least(current_clean.as_str(), min_clean.as_str())
    } else {
        false
    };
    let mut minimum = String::new();
    push_char(&mut minimum, 'v');
    minimum.append(MIN_MAAFW_VERSION);
    proof {
        assert(minimum@ =~= seq!['v'].add(MIN_MAAFW_VERSION@));
    }
    Ok(VersionCheckResult { current: current.to_owned(), minimum, is_compatible })
}

/// The user agent this build announces on its own requests.
pub fn build_user_agent(version: &str) -> (r: String)
    ensures
        r@ == "MXU/"@ + version@ + " (Windows NT 10.0; Win64; x64; amd64) Tauri/2.0"@,
{
    let mut agent = "MXU/".to_owned();
    agent.append(version);
    agent.append(" (Windows NT 10.0; Win64; x64; amd64) Tauri/2.0");
    agent
}

} // verus!
