//! Removal of the rendering engine's private artifact directory.
//!
//! The directory lies beside the executable and is named after its stem:
//! `<dir>/<stem>.WebView2`. The host probes and removes it; the library
//! computes where it is and decides what follows each outcome.
use vstd::prelude::*;
use vstd::string::*;

verus! {

pub open spec fn is_separator(c: char) -> bool {
    c == '/' || c == '\\'
}

/// Index of the last path separator in `s`, or -1 when there is none.
pub open spec fn last_separator(s: Seq<char>) -> int
    decreases s.len(),
{
    if s.len() == 0 {
        -1
    } else if is_separator(s.last()) {
        s.len() - 1
    } else {
        last_separator(s.drop_last())
    }
}

/// Index of the last `.` in `s`, or -1 when there is none.
pub open spec fn last_dot(s: Seq<char>) -> int
    decreases s.len(),
{
    if s.len() == 0 {
        -1
    } else if s.last() == '.' {
        s.len() - 1
    } else {
        last_dot(s.drop_last())
    }
}

/// What follows the last separator of a path.
pub open spec fn file_name(path: Seq<char>) -> Seq<char> {
    path.subrange(last_separator(path) + 1, path.len() as int)
}

/// A file name without its last extension; a name whose only dot leads
/// it is kept whole.
pub open spec fn file_stem(name: Seq<char>) -> Seq<char> {
    if last_dot(name) <= 0 {
        name
    } else {
        name.subrange(0, last_dot(name))
    }
}

/// The directory of a path, with its trailing separator; empty for a bare
/// file name.
pub open spec fn directory_prefix(path: Seq<char>) -> Seq<char> {
    path.subrange(0, last_separator(path) + 1)
}

/// The artifact directory that belongs to an executable path; `None` when
/// the path names no file.
pub open spec fn cleanup_target(exe_path: Seq<char>) -> Option<Seq<char>> {
    if file_name(exe_path).len() == 0 {
        None
    } else {
        Some(directory_prefix(exe_path) + file_stem(file_name(exe_path)) + ".WebView2"@)
    }
}

proof fn lemma_last_separator_bounds(s: Seq<char>)
    ensures
        -1 <= last_separator(s) < s.len(),
        last_separator(s) >= 0 ==> is_separator(s[last_separator(s)]),
    decreases s.len(),
{
    if s.len() > 0 && !is_separator(s.last()) {
        lemma_last_separator_bounds(s.drop_last());
    }
}

proof fn lemma_last_dot_bounds(s: Seq<char>)
    ensures
        -1 <= last_dot(s) < s.len(),
    decreases s.len(),
{
    if s.len() > 0 && s.last() != '.' {
        lemma_last_dot_bounds(s.drop_last());
    }
}

/// One past the index of the last separator (zero when there is none),
/// scanning from the front.
fn find_last_separator(s: &str) -> (r: usize)
    ensures
        r as int == last_separator(s@) + 1,
{
    let n = s.unicode_len();
    let mut after: usize = 0;
    let mut i: usize = 0;
    while i < n
        invariant
            n == s@.len(),
            i <= n,
            after as int == last_separator(s@.take(i as int)) + 1,
        decreases n - i,
    {
        let c = s.get_char(i);
        proof {
            let t = s@.take(i as int + 1);
            assert(t.drop_last() =~= s@.take(i as int));
            assert(t.last() == c);
        }
        if c == '/' || c == '\\' {
            after = i + 1;
        }
        i = i + 1;
    }
    proof {
        assert(s@.take(n as int) =~= s@);
    }
    after
}

/// One past the index of the last dot (zero when there is none), scanning
/// from the front.
fn find_last_dot(s: &str) -> (r: usize)
    ensures
        r as int == last_dot(s@) + 1,
{
    let n = s.unicode_len();
    let mut after: usize = 0;
    let mut i: usize = 0;
    while i < n
        invariant
            n == s@.len(),
            i <= n,
            after as int == last_dot(s@.take(i as int)) + 1,
        decreases n - i,
    {
        let c = s.get_char(i);
        proof {
            let t = s@.take(i as int + 1);
            assert(t.drop_last() =~= s@.take(i as int));
            assert(t.last() == c);
        }
        if c == '.' {
            after = i + 1;
        }
        i = i + 1;
    }
    proof {
        assert(s@.take(n as int) =~= s@);
    }
    after
}

/// The stem of a file name.
fn stem_of(name: &str) -> (r: &str)
    ensures
        r@ == file_stem(name@),
{
    let dot = find_last_dot(name);
    proof {
        lemma_last_dot_bounds(name@);
    }
    if dot <= 1 {
        name
    } else {
        name.substring_char(0, dot - 1)
    }
}

/// What the host needs to remove the artifact directory of an executable.
#[derive(Clone, Debug)]
pub struct CleanupPlan {
    /// File name of the executable.
    pub exe_name: String,
    /// Path of the artifact directory.
    pub target: String,
}

/// Computes the artifact directory of the executable at `exe_path`, and
/// the executable's file name; `None` when the path names no file.
pub fn plan_cleanup(exe_path: &str) -> (r: Option<CleanupPlan>)
    ensures
        r is Some <==> cleanup_target(exe_path@) is Some,
        r matches Some(p) ==> p.target@ == cleanup_target(exe_path@)->Some_0 && p.exe_name@
            == file_name(exe_path@),
{
    let n = exe_path.unicode_len();
    let name_start = find_last_separator(exe_path);
    proof {
        lemma_last_separator_bounds(exe_path@);
    }
    let name = exe_path.substring_char(name_start, n);
    if name_start == n {
        return None;
    }
    let mut target = String::from_str(exe_path.substring_char(0, name_start));
    target.append(stem_of(name));
    target.append(".WebView2");
    Some(CleanupPlan { exe_name: String::from_str(name), target })
}

/// The cache directory that the rendering engine keeps under a home
/// directory, named after the executable's stem, on platforms without a
/// directory beside the executable; `None` when the path names no file.
pub open spec fn home_cache_target(home: Seq<char>, exe_path: Seq<char>) -> Option<Seq<char>> {
    if file_name(exe_path).len() == 0 {
        None
    } else {
        Some(home + "/Library/Caches/"@ + file_stem(file_name(exe_path)))
    }
}

/// Computes the cache directory under `home` of the executable at
/// `exe_path`.
pub fn plan_home_cache(home: &str, exe_path: &str) -> (r: Option<String>)
    ensures
        r is Some <==> home_cache_target(home@, exe_path@) is Some,
        r matches Some(t) ==> t@ == home_cache_target(home@, exe_path@)->Some_0,
{
    let n = exe_path.unicode_len();
    let name_start = find_last_separator(exe_path);
    proof {
        lemma_last_separator_bounds(exe_path@);
    }
    if name_start == n {
        return None;
    }
    let name = exe_path.substring_char(name_start, n);
    let mut r = String::from_str(home);
    r.append("/Library/Caches/");
    r.append(stem_of(name));
    Some(r)
}

/// What the host observed when it tried to remove the artifact directory.
#[derive(Clone, Copy, Debug, PartialEq, Eq, Structural)]
pub enum RemovalOutcome {
    /// The directory did not exist.
    Absent,
    /// The directory existed and was removed.
    Removed,
    /// The directory existed and could not be removed.
    Failed,
}

/// What the host does next.
#[derive(Clone, Debug)]
pub enum CleanupStep {
    /// Cleanup is complete.
    Succeeded,
    /// Direct removal failed and there is nothing else to try: report it.
    Failed,
    /// Run the external cleanup procedure with these arguments; its exit
    /// status is reported but does not fail the shutdown.
    RunFallback { program: String, args: Vec<String> },
}

/// The external cleanup procedure.
pub const FALLBACK_PROGRAM: &'static str = "remove_webview2.ps1";

/// Decides what follows an attempt to remove the artifact directory.
/// Absence is no error; a failed removal goes to the external procedure
/// where the platform has one, with exactly the executable name and the
/// directory path as arguments.
pub fn next_cleanup_step(outcome: RemovalOutcome, fallback_available: bool, plan: &CleanupPlan) -> (r: CleanupStep)
    ensures
        outcome != RemovalOutcome::Failed ==> r is Succeeded,
        outcome == RemovalOutcome::Failed && !fallback_available ==> r is Failed,
        outcome == RemovalOutcome::Failed && fallback_available ==> r is RunFallback,
        r matches CleanupStep::RunFallback { program, args } ==> program@ == FALLBACK_PROGRAM@
            && args@.len() == 2 && args@[0]@ == plan.exe_name@ && args@[1]@ == plan.target@,
{
    match outcome {
        RemovalOutcome::Absent | RemovalOutcome::Removed => CleanupStep::Succeeded,
        RemovalOutcome::Failed => {
            if fallback_available {
                let args = vec![plan.exe_name.clone(), plan.target.clone()];
                CleanupStep::RunFallback { program: String::from_str(FALLBACK_PROGRAM), args }
            } else {
                CleanupStep::Failed
            }
        },
    }
}

} // verus!
