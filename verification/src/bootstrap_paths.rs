//! Normalising the paths that a focused mergetool window or a submodule
//! diff window starts with: file paths are kept relative to the repository.
//! Making a path absolute and canonical reads the file system, so callers
//! pass in the canonical forms; what the platform's path rules answer comes
//! from std.
use vstd::prelude::*;
use crate::text::{clean_path, has_prefix, owned, plain_path};
use crate::view_config::{
    DiffTarget, FocusedMergetoolBootstrap, FocusedMergetoolViewConfig, SubmoduleDiffBootstrap,
};

verus! {

/// Whether a path holds a separator of any platform.
pub open spec fn has_separator(path: Seq<char>) -> bool {
    path.contains('/') || path.contains('\\')
}

/// Whether a path is relative on every platform: it has no separator, or it
/// is plain (see `plain_path`: no Windows prefix) and does not start with
/// `/`, so it has neither a root nor a prefix.
pub open spec fn surely_relative(path: Seq<char>) -> bool {
    !has_separator(path) || (plain_path(path) && !(path.len() > 0 && path[0] == '/'))
}

/// Whether `path` is relative, by the platform's rules
/// (`std::path::Path::is_relative`). Claimed: a path with neither a root nor
/// a prefix (`surely_relative`) is relative on every platform. Left unsaid:
/// which other paths are relative, which the platform decides (a path that
/// starts with `/` is absolute on Unix and relative on Windows).
#[verifier::external_body]
fn path_is_relative(path: &str) -> (r: bool)
    ensures
        surely_relative(path@) ==> r,
{
    std::path::Path::new(path).is_relative()
}

/// The rest of a clean path after the leading path `base` and the `/` that
/// follows it, when the path goes on that way.
pub open spec fn plain_rest(path: Seq<char>, base: Seq<char>) -> Option<Seq<char>> {
    if clean_path(path) && base.len() > 0 && has_prefix(path, base + seq!['/']) {
        Some(path.subrange(base.len() as int + 1, path.len() as int))
    } else {
        None
    }
}

/// `path` with the leading components `base` taken off, when `base` is a
/// leading part of it (`std::path::Path::strip_prefix`). Claimed: a path
/// stripped of itself leaves the empty path; a clean path that goes on from
/// `base` with a `/` leaves the text after that `/` (`plain_rest`: there the
/// components of `base` are the leading components of the path on every
/// platform, and the rest is handed back as it stands). Left unsaid: the
/// result for other paths, which follows the platform's component rules.
#[verifier::external_body]
fn path_strip_prefix(path: &str, base: &str) -> (r: Option<String>)
    ensures
        path@ == base@ ==> r.is_some() && r.unwrap()@.len() == 0,
        plain_rest(path@, base@) is Some ==> r is Some && r.unwrap()@ == plain_rest(path@, base@).unwrap(),
{
    match std::path::Path::new(path).strip_prefix(base) {
        Ok(rest) => Some(rest.to_string_lossy().into_owned()),
        Err(_) => None,
    }
}

/// The path a target is kept under, given what the path rules answered: a
/// relative path as it is; else the path relative to the repository, taken
/// from the path as given or, failing that, from its canonical form; else
/// the path as given.
pub open spec fn kept_path(
    path: Seq<char>,
    is_relative: bool,
    relative_to_repo: Option<Seq<char>>,
    canonical_relative_to_repo: Option<Seq<char>>,
) -> Seq<char> {
    if is_relative {
        path
    } else {
        match relative_to_repo {
            Some(rel) => rel,
            None => match canonical_relative_to_repo {
                Some(rel) => rel,
                None => path,
            },
        }
    }
}

/// The text of an optional string.
pub open spec fn opt_view(s: Option<String>) -> Option<Seq<char>> {
    match s {
        Some(t) => Some(t@),
        None => None,
    }
}

/// The path a target is kept under, given what the path rules answered
/// (see `kept_path`).
pub fn bootstrap_kept_path(
    path: &str,
    is_relative: bool,
    relative_to_repo: Option<String>,
    canonical_relative_to_repo: Option<String>,
) -> (r: String)
    ensures
        r@ == kept_path(
            path@,
            is_relative,
            opt_view(relative_to_repo),
            opt_view(canonical_relative_to_repo),
        ),
{
    if is_relative {
        return owned(path);
    }
    match relative_to_repo {
        Some(rel) => rel,
        None => match canonical_relative_to_repo {
            Some(rel) => rel,
            None => owned(path),
        },
    }
}

/// The path of a file within the repository at `repo_path`, as a mergetool
/// or diff window keeps it: relative to the repository where it lies in it
/// (by the path as given or by `canonical_path`, its canonical form), else
/// as given. A path that is relative on every platform (`surely_relative`)
/// is kept as it is; the repository's own path is kept as it is or becomes
/// the empty path; a clean path inside the repository (`plain_rest`) is kept
/// as it is or becomes the rest after the repository's path. Whether a path
/// that starts with `/` is kept as it is depends on the platform (relative
/// on Windows, absolute elsewhere).
pub fn focused_mergetool_target_path(repo_path: &str, path: &str, canonical_path: &str) -> (r:
    String)
    ensures
        surely_relative(path@) ==> r@ == path@,
        path@ == repo_path@ ==> r@ == path@ || r@.len() == 0,
        plain_rest(path@, repo_path@) is Some ==> r@ == path@ || r@ == plain_rest(
            path@,
            repo_path@,
        ).unwrap(),
{
    let is_relative = path_is_relative(path);
    if is_relative {
        return bootstrap_kept_path(path, true, None, None);
    }
    let relative = path_strip_prefix(path, repo_path);
    let canonical_relative = match relative {
        Some(_) => None,
        None => path_strip_prefix(canonical_path, repo_path),
    };
    bootstrap_kept_path(path, false, relative, canonical_relative)
}

/// Whether a file path was kept as `focused_mergetool_target_path` keeps
/// it for the repository at `repo`: unchanged when it is relative on every
/// platform, unchanged or empty when it is the repository's own path, and
/// unchanged or the rest after the repository's path when it is a clean
/// path inside it.
pub open spec fn kept_path_facts(repo: Seq<char>, before: Seq<char>, after: Seq<char>) -> bool {
    &&& surely_relative(before) ==> after == before
    &&& before == repo ==> after == before || after.len() == 0
    &&& plain_rest(before, repo) is Some ==> after == before || after == plain_rest(before, repo).unwrap()
}

/// Whether an optional file path was kept: present exactly when it was,
/// and kept as `kept_path_facts` says.
pub open spec fn kept_optional_path(repo: Seq<char>, before: Option<String>, after: Option<String>) -> bool {
    match (before, after) {
        (None, None) => true,
        (Some(x), Some(y)) => kept_path_facts(repo, x@, y@),
        _ => false,
    }
}

/// A diff target whose file path is kept relative to the repository at
/// `repo_path` (see `focused_mergetool_target_path`); `canonical_path` is
/// the canonical form of the target's file path. Everything else stays.
pub fn normalize_bootstrap_diff_target(repo_path: &str, target: DiffTarget, canonical_path: &str) -> (r:
    DiffTarget)
    ensures
        match (target, r) {
            (
                DiffTarget::WorkingTree { path: p0, area: a0 },
                DiffTarget::WorkingTree { path: p1, area: a1 },
            ) => a1 == a0 && kept_path_facts(repo_path@, p0@, p1@),
            (
                DiffTarget::Commit { commit_id: c0, path: p0 },
                DiffTarget::Commit { commit_id: c1, path: p1 },
            ) => c1 == c0 && kept_optional_path(repo_path@, p0, p1),
            (
                DiffTarget::CommitRange { from_commit_id: f0, to_commit_id: t0, path: p0 },
                DiffTarget::CommitRange { from_commit_id: f1, to_commit_id: t1, path: p1 },
            ) => f1 == f0 && t1 == t0 && kept_optional_path(repo_path@, p0, p1),
            _ => false,
        },
{
    match target {
        DiffTarget::WorkingTree { path, area } => DiffTarget::WorkingTree {
            path: focused_mergetool_target_path(repo_path, path.as_str(), canonical_path),
            area,
        },
        DiffTarget::Commit { commit_id, path } => {
            let path = match path {
                Some(p) => Some(focused_mergetool_target_path(repo_path, p.as_str(), canonical_path)),
                None => None,
            };
            DiffTarget::Commit { commit_id, path }
        },
        DiffTarget::CommitRange { from_commit_id, to_commit_id, path } => {
            let path = match path {
                Some(p) => Some(focused_mergetool_target_path(repo_path, p.as_str(), canonical_path)),
                None => None,
            };
            DiffTarget::CommitRange { from_commit_id, to_commit_id, path }
        },
    }
}

impl FocusedMergetoolBootstrap {
    /// The target of a focused mergetool window: the repository at
    /// `repo_path` (already absolute and canonical) and the conflicted file
    /// kept relative to it; `canonical_file_path` is the conflicted file's
    /// canonical form.
    pub fn from_view_config(
        config: FocusedMergetoolViewConfig,
        repo_path: String,
        canonical_file_path: &str,
    ) -> (r: Self)
        ensures
            r.repo_path == repo_path,
            !has_separator(config.conflicted_file_path@) ==> r.target_path@
                == config.conflicted_file_path@,
    {
        let target_path = focused_mergetool_target_path(
            repo_path.as_str(),
            config.conflicted_file_path.as_str(),
            canonical_file_path,
        );
        FocusedMergetoolBootstrap { repo_path, target_path }
    }
}

impl SubmoduleDiffBootstrap {
    /// The target of a submodule diff window: the repository at `repo_path`
    /// (already absolute and canonical) and the diff target with its file
    /// path kept relative to it; `canonical_path` is that file's canonical
    /// form.
    pub fn new(repo_path: String, target: DiffTarget, canonical_path: &str) -> (r: Self)
        ensures
            r.repo_path == repo_path,
            match (target, r.target) {
                (DiffTarget::WorkingTree { path: p0, area: a0 }, DiffTarget::WorkingTree { path: p1, area: a1 }) => a1
                    == a0 && (!has_separator(p0@) ==> p1@ == p0@),
                (DiffTarget::Commit { commit_id: c0, .. }, DiffTarget::Commit { commit_id: c1, .. }) => c1 == c0,
                (
                    DiffTarget::CommitRange { from_commit_id: f0, to_commit_id: t0, .. },
                    DiffTarget::CommitRange { from_commit_id: f1, to_commit_id: t1, .. },
                ) => f1 == f0 && t1 == t0,
                _ => false,
            },
    {
        let target = normalize_bootstrap_diff_target(repo_path.as_str(), target, canonical_path);
        SubmoduleDiffBootstrap { repo_path, target }
    }
}

} // verus!
