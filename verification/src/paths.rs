//! Where the engine's executable may be found.
//!
//! The candidates come from a fixed table for each platform. The bare
//! command name is always the first: it is the cheapest to try and reflects an
//! installation by a package manager. The known installation paths follow,
//! the user's own before the system-wide ones, and on macOS the application
//! bundle last. Whether a path exists is for the caller to ask of the file
//! system; a bare name is resolved by the system when it is started.

use vstd::prelude::*;
use vstd::string::StringExecFns;
use crate::platform::{HostProfile, HostProfileView, PlatformId};

verus! {

/// One place to look for the engine's executable.
#[derive(Debug)]
pub struct ExecutableCandidate {
    /// A path, or a bare command name.
    pub path: String,
    /// Whether `path` is an absolute path, which must exist before it is
    /// used.
    pub is_absolute: bool,
}

pub struct CandidateView {
    pub path: Seq<char>,
    pub is_absolute: bool,
}

impl View for ExecutableCandidate {
    type V = CandidateView;

    open spec fn view(&self) -> CandidateView {
        CandidateView { path: self.path@, is_absolute: self.is_absolute }
    }
}

impl ExecutableCandidate {
    /// A copy of the candidate.
    pub fn duplicate(&self) -> (r: Self)
        ensures
            r@ == self@,
    {
        ExecutableCandidate { path: self.path.clone(), is_absolute: self.is_absolute }
    }
}

/// The candidates that a vector holds.
pub open spec fn candidates_view(v: Seq<ExecutableCandidate>) -> Seq<CandidateView> {
    Seq::new(v.len(), |i: int| v[i]@)
}

pub open spec fn bare(name: Seq<char>) -> CandidateView {
    CandidateView { path: name, is_absolute: false }
}

pub open spec fn absolute(path: Seq<char>) -> CandidateView {
    CandidateView { path, is_absolute: true }
}

/// The table of candidates, in the order in which they are tried.
pub open spec fn candidate_table(platform: PlatformId, host: HostProfileView) -> Seq<
    CandidateView,
> {
    match platform {
        PlatformId::Windows => seq![
            bare("ollama.exe"@),
            absolute(host.user_profile + "\\AppData\\Local\\Programs\\Ollama\\ollama.exe"@),
            absolute("C:\\Program Files\\Ollama\\ollama.exe"@),
            absolute("C:\\Program Files (x86)\\Ollama\\ollama.exe"@),
        ],
        PlatformId::MacOs => seq![
            bare("ollama"@),
            absolute("/opt/homebrew/bin/ollama"@),
            absolute("/usr/local/bin/ollama"@),
            absolute("/Applications/Ollama.app/Contents/Resources/ollama"@),
        ],
        PlatformId::Linux => seq![
            bare("ollama"@),
            absolute("/home/"@ + host.user + "/.local/bin/ollama"@),
            absolute("/usr/local/bin/ollama"@),
            absolute("/usr/bin/ollama"@),
        ],
        PlatformId::Unknown => seq![bare("ollama"@)],
    }
}

fn bare_candidate(name: &str) -> (r: ExecutableCandidate)
    ensures
        r@ == bare(name@),
{
    ExecutableCandidate { path: name.to_string(), is_absolute: false }
}

fn absolute_candidate(path: String) -> (r: ExecutableCandidate)
    ensures
        r@ == absolute(path@),
{
    ExecutableCandidate { path, is_absolute: true }
}

/// The candidates for the engine's executable on `platform`, in the order in
/// which they are to be tried. The list is never empty; its first entry is
/// the bare command name, and every other entry is an absolute path.
pub fn resolve_candidates(platform: PlatformId, host: &HostProfile) -> (r: Vec<ExecutableCandidate>)
    ensures
        candidates_view(r@) == candidate_table(platform, host@),
        r.len() >= 1,
        r[0]@ == bare(platform.engine_command()),
        forall|i: int| 1 <= i < r.len() ==> (#[trigger] r[i]).is_absolute,
{
    let mut r: Vec<ExecutableCandidate> = Vec::new();
    match platform {
        PlatformId::Windows => {
            r.push(bare_candidate("ollama.exe"));
            let mut local = host.user_profile.clone();
            local.append("\\AppData\\Local\\Programs\\Ollama\\ollama.exe");
            r.push(absolute_candidate(local));
            r.push(absolute_candidate("C:\\Program Files\\Ollama\\ollama.exe".to_string()));
            r.push(absolute_candidate("C:\\Program Files (x86)\\Ollama\\ollama.exe".to_string()));
        },
        PlatformId::MacOs => {
            r.push(bare_candidate("ollama"));
            r.push(absolute_candidate("/opt/homebrew/bin/ollama".to_string()));
            r.push(absolute_candidate("/usr/local/bin/ollama".to_string()));
            r.push(
                absolute_candidate("/Applications/Ollama.app/Contents/Resources/ollama".to_string()),
            );
        },
        PlatformId::Linux => {
            r.push(bare_candidate("ollama"));
            let mut local = "/home/".to_string();
            local.append(host.user.as_str());
            local.append("/.local/bin/ollama");
            r.push(absolute_candidate(local));
            r.push(absolute_candidate("/usr/local/bin/ollama".to_string()));
            r.push(absolute_candidate("/usr/bin/ollama".to_string()));
        },
        PlatformId::Unknown => {
            r.push(bare_candidate("ollama"));
        },
    }
    assert(candidates_view(r@) =~= candidate_table(platform, host@));
    r
}

/// Whether the candidate at `index` can be started: a bare name always, an
/// absolute path where `exists` says that it is there. `exists` answers for
/// each candidate in turn; a candidate without an answer counts as missing.
pub open spec fn usable(candidates: Seq<CandidateView>, exists: Seq<bool>, index: int) -> bool {
    &&& 0 <= index < candidates.len()
    &&& (!candidates[index].is_absolute || (index < exists.len() && exists[index]))
}

/// The first candidate at or after `from` that can be started; the number
/// of candidates where there is none.
pub open spec fn next_usable(candidates: Seq<CandidateView>, exists: Seq<bool>, from: nat) -> nat
    decreases candidates.len() - from,
{
    if from >= candidates.len() {
        candidates.len()
    } else if usable(candidates, exists, from as int) {
        from
    } else {
        next_usable(candidates, exists, from + 1)
    }
}

/// The first absolute candidate that `exists` reports as present.
pub open spec fn first_installed(candidates: Seq<CandidateView>, exists: Seq<bool>, from: int) -> Option<
    int,
>
    decreases candidates.len() - from,
{
    if from < 0 || from >= candidates.len() || from >= exists.len() {
        None
    } else if candidates[from].is_absolute && exists[from] {
        Some(from)
    } else {
        first_installed(candidates, exists, from + 1)
    }
}

/// The index of the first absolute candidate that is present on disk, given
/// for each candidate whether its path exists. `None` says that the engine
/// is installed in none of the known places.
pub fn locate_installed(candidates: &Vec<ExecutableCandidate>, exists: &[bool]) -> (r: Option<usize>)
    ensures
        match r {
            Some(i) => first_installed(candidates_view(candidates@), exists@, 0) == Some(i as int),
            None => first_installed(candidates_view(candidates@), exists@, 0) is None,
        },
{
    let mut i: usize = 0;
    while i < candidates.len() && i < exists.len()
        invariant
            first_installed(candidates_view(candidates@), exists@, 0) == first_installed(
                candidates_view(candidates@),
                exists@,
                i as int,
            ),
        decreases candidates.len() - i,
    {
        if candidates[i].is_absolute && exists[i] {
            return Some(i);
        }
        i += 1;
    }
    None
}

/// What `first_installed` finds is a candidate of the list.
pub proof fn lemma_first_installed(candidates: Seq<CandidateView>, exists: Seq<bool>, from: int)
    requires
        0 <= from,
    ensures
        match first_installed(candidates, exists, from) {
            Some(index) => from <= index < candidates.len() && index < exists.len()
                && candidates[index].is_absolute && exists[index],
            None => true,
        },
    decreases candidates.len() - from,
{
    if from < candidates.len() && from < exists.len() && !(candidates[from].is_absolute
        && exists[from]) {
        lemma_first_installed(candidates, exists, from + 1);
    }
}

/// On every platform the table of candidates is not empty, opens with the
/// bare command name of the platform, and holds nothing but absolute paths
/// behind it.
pub proof fn lemma_candidate_table_shape(platform: PlatformId, host: HostProfileView)
    ensures
        candidate_table(platform, host).len() >= 1,
        candidate_table(platform, host)[0] == bare(platform.engine_command()),
        forall|i: int|
            1 <= i < candidate_table(platform, host).len() ==> (#[trigger] candidate_table(
                platform,
                host,
            )[i]).is_absolute,
{
}

} // verus!
