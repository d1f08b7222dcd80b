use vstd::prelude::*;

verus! {

/// How many places are searched for the companion server's entry script.
pub const SCRIPT_CANDIDATES: usize = 4;

/// The candidate named when no candidate exists: the last one under the
/// program's directory.
pub const REPORTED_CANDIDATE: usize = 2;

/// Where one candidate entry script lies: a relative path of `segments`,
/// under the working directory if `from_current_dir`, else under the
/// directory of the running program.
#[derive(Debug, Clone)]
pub struct ScriptCandidate {
    pub from_current_dir: bool,
    pub segments: Vec<String>,
}

/// The path segments of candidate `i`, in search order: beside the program,
/// in its bundled resources, in its data directory, and in the source tree
/// under the working directory.
pub open spec fn candidate_segments(i: int) -> Seq<Seq<char>> {
    if i == 0 {
        seq!["python"@, "main.py"@]
    } else if i == 1 {
        seq!["resources"@, "python"@, "main.py"@]
    } else if i == 2 {
        seq!["data"@, "python"@, "main.py"@]
    } else {
        seq!["src-tauri"@, "python"@, "main.py"@]
    }
}

/// Only the last candidate lies under the working directory.
pub open spec fn candidate_from_current_dir(i: int) -> bool {
    i == SCRIPT_CANDIDATES - 1
}

/// The segments of a candidate, as text.
pub open spec fn segments_view(c: ScriptCandidate) -> Seq<Seq<char>> {
    c.segments@.map_values(|s: String| s@)
}

/// The `i`-th place searched for the entry script.
pub fn script_candidate(i: usize) -> (r: ScriptCandidate)
    requires
        i < SCRIPT_CANDIDATES,
    ensures
        r.from_current_dir == candidate_from_current_dir(i as int),
        segments_view(r) == candidate_segments(i as int),
{
    let mut segments: Vec<String> = Vec::new();
    if i == 1 {
        segments.push(String::from_str("resources"));
    } else if i == 2 {
        segments.push(String::from_str("data"));
    } else if i == 3 {
        segments.push(String::from_str("src-tauri"));
    }
    segments.push(String::from_str("python"));
    segments.push(String::from_str("main.py"));
    let r = ScriptCandidate { from_current_dir: i == 3, segments };
    assert(segments_view(r) =~= candidate_segments(i as int));
    r
}

/// One step of the search for the entry script.
#[derive(Debug, Clone, Copy, PartialEq, Eq, Structural)]
pub enum SearchStep {
    /// Check whether the candidate of this index exists.
    Probe(usize),
    /// The candidate of this index exists: launch it.
    Use(usize),
    /// No candidate exists: report the one of this index as missing.
    Missing(usize),
}

/// The search starts at the first candidate.
pub fn first_step() -> (r: SearchStep)
    ensures
        r == SearchStep::Probe(0),
{
    SearchStep::Probe(0)
}

/// The step after candidate `probed` was checked and found to exist or not:
/// the first candidate that exists is used; when none does, the search ends
/// by naming the last candidate under the program's directory.
pub fn next_step(probed: usize, exists: bool) -> (r: SearchStep)
    requires
        probed < SCRIPT_CANDIDATES,
    ensures
        exists ==> r == SearchStep::Use(probed),
        !exists && probed + 1 < SCRIPT_CANDIDATES ==> r == SearchStep::Probe((probed + 1) as usize),
        !exists && probed + 1 == SCRIPT_CANDIDATES ==> r == SearchStep::Missing(REPORTED_CANDIDATE),
{
    if exists {
        SearchStep::Use(probed)
    } else if probed + 1 < SCRIPT_CANDIDATES {
        SearchStep::Probe(probed + 1)
    } else {
        SearchStep::Missing(REPORTED_CANDIDATE)
    }
}

/// The interpreter that runs the entry script: the system's `python`.
pub fn find_python_executable() -> (r: String)
    ensures
        r@ == "python"@,
{
    String::from_str("python")
}

} // verus!
