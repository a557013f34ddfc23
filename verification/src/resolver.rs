//! The directory resolver: computes the single authoritative path under
//! which all persistent application state lives.
//!
//! Portable mode is preferred: whenever the directory containing the running
//! executable is determinable, data lives in a fixed subdirectory next to the
//! executable, so that copying the executable elsewhere carries its data
//! along. Otherwise the OS-standard per-user application-data path is used.
//! When neither is determinable, resolution fails and startup must abort.

use vstd::prelude::*;

verus! {

/// The fixed name of the folder, next to the executable, that holds the
/// application's data in portable mode.
pub open spec fn portable_subdir_spec() -> Seq<char> {
    "OopisOS_Data"@
}

/// Executable form of the portable-subdirectory constant.
pub fn portable_subdir() -> (s: &'static str)
    ensures
        s@ == portable_subdir_spec(),
{
    "OopisOS_Data"
}

/// A directory path joined with a relative component: exactly one separator
/// stands between them, so none is doubled when `dir` already ends in one.
pub open spec fn join_spec(dir: Seq<char>, sub: Seq<char>) -> Seq<char> {
    if dir.len() > 0 && dir.last() == '/' {
        dir + sub
    } else {
        dir + seq!['/'] + sub
    }
}

/// Joins a directory path with a relative component, as `join_spec` says.
pub fn join_path(dir: &str, sub: &str) -> (r: String)
    ensures
        r@ == join_spec(dir@, sub@),
{
    let n: usize = dir.unicode_len();
    let mut r = String::from_str(dir);
    if n == 0 || dir.get_char(n - 1) != '/' {
        proof {
            reveal_strlit("/");
        }
        r.append("/");
        assert(r@ =~= dir@ + seq!['/']);
    }
    let joined = r.concat(sub);
    assert(joined@ =~= join_spec(dir@, sub@));
    joined
}

/// The views of an optional borrowed path.
pub open spec fn opt_view(p: Option<&str>) -> Option<Seq<char>> {
    match p {
        Some(s) => Some(s@),
        None => None,
    }
}

/// The resolution policy over mathematical path values: the portable
/// directory whenever the executable's directory is known, the OS-standard
/// path otherwise, and nothing when neither is known.
pub open spec fn resolved_spec(
    exe_dir: Option<Seq<char>>,
    standard_dir: Option<Seq<char>>,
) -> Option<Seq<char>> {
    match exe_dir {
        Some(d) => Some(join_spec(d, portable_subdir_spec())),
        None => standard_dir,
    }
}

/// The fatal startup condition: neither the executable's directory nor the
/// OS-standard application-data path could be determined, so no data root
/// can be chosen and the application must not proceed.
#[derive(Clone, Copy, Debug, PartialEq, Eq, Structural)]
pub enum ResolveError {
    Unavailable,
}

impl ResolveError {
    /// A diagnostic to surface when startup aborts on this condition.
    pub fn message(&self) -> (m: String)
        ensures
            m@.len() > 0,
    {
        proof {
            reveal_strlit("no data directory: neither the executable's location nor the standard application-data path is available");
        }
        String::from_str(
            "no data directory: neither the executable's location nor the standard application-data path is available",
        )
    }
}

/// Computes the resolved data directory from the two environment facts, as
/// `resolved_spec` says. Pure: no filesystem access, and in particular no
/// check whether the chosen directory exists on disk.
pub fn resolve_data_directory(exe_dir: Option<&str>, standard_dir: Option<&str>) -> (r: Result<
    String,
    ResolveError,
>)
    ensures
        r is Ok <==> resolved_spec(opt_view(exe_dir), opt_view(standard_dir)) is Some,
        r is Ok ==> r->Ok_0@ == resolved_spec(opt_view(exe_dir), opt_view(standard_dir))->Some_0,
        r is Err ==> exe_dir is None && standard_dir is None && r->Err_0 == ResolveError::Unavailable,
{
    match exe_dir {
        Some(dir) => Ok(join_path(dir, portable_subdir())),
        None => match standard_dir {
            Some(p) => Ok(String::from_str(p)),
            None => Err(ResolveError::Unavailable),
        },
    }
}

/// Portable mode is preferred: whenever the executable's directory is known,
/// the resolved directory is that directory joined with the fixed portable
/// subdirectory, whatever the standard path offers. Resolution never looks
/// at the disk, so this holds whether or not the directory exists there.
pub proof fn lemma_portable_preferred(exe_dir: Seq<char>, standard_dir: Option<Seq<char>>)
    ensures
        resolved_spec(Some(exe_dir), standard_dir) == Some(
            join_spec(exe_dir, portable_subdir_spec()),
        ),
{
}

/// Installed fallback: when the executable's directory is unknown but the
/// OS-standard path is known, the resolved directory is that path, exactly.
pub proof fn lemma_installed_fallback(standard_dir: Seq<char>)
    ensures
        resolved_spec(None, Some(standard_dir)) == Some(standard_dir),
{
}

/// The fatal case: when neither source is known, nothing is resolved, and no
/// path is invented.
pub proof fn lemma_resolution_unavailable(exe_dir: Option<Seq<char>>, standard_dir: Option<Seq<char>>)
    requires
        exe_dir is None,
        standard_dir is None,
    ensures
        resolved_spec(exe_dir, standard_dir) is None,
{
}

} // verus!
