//! The bootstrap controller: establishes the resolved data directory exactly
//! once during application setup, then serves the identical value both to the
//! window host (as the window's storage root) and to every later accessor
//! call from the front-end.
//!
//! The controller's state machine — Uninitialized, then Resolving, then
//! Ready or Failed — is encoded in types: [`Bootstrap::initialize`] performs
//! the Resolving step, a [`Bootstrap`] value is the Ready state, and a
//! [`ResolveError`] is the Failed state. An accessor call before setup has
//! succeeded is therefore impossible by construction, and on failure no
//! window configuration and no accessor ever come into existence.

use crate::resolver::ResolveError;
use crate::resolver::opt_view;
use crate::resolver::resolve_data_directory;
use crate::resolver::resolved_spec;
use vstd::prelude::*;

verus! {

/// The controller in its terminal Ready state: the data directory has been
/// resolved and cached for the rest of the process's life. Every method
/// reads the cached value; nothing ever re-runs resolution or mutates it.
pub struct Bootstrap {
    resolved: String,
}

/// What the controller hands to the window host at window-construction time,
/// before the window is shown.
pub struct WindowConfig {
    /// Root directory under which the window's persistent session state
    /// (its user data) is stored.
    pub storage_root: String,
}

impl View for Bootstrap {
    type V = Seq<char>;

    /// A ready controller is abstractly the path it resolved.
    closed spec fn view(&self) -> Seq<char> {
        self.resolved@
    }
}

impl Bootstrap {
    /// Application setup: runs directory resolution once and, on success,
    /// returns the Ready controller holding the resolved path. On failure
    /// it returns the fatal error instead, and no controller — hence no
    /// window configuration and no accessor — exists.
    pub fn initialize(exe_dir: Option<&str>, standard_dir: Option<&str>) -> (r: Result<
        Bootstrap,
        ResolveError,
    >)
        ensures
            r is Ok <==> resolved_spec(opt_view(exe_dir), opt_view(standard_dir)) is Some,
            r is Ok ==> r->Ok_0@ == resolved_spec(opt_view(exe_dir), opt_view(standard_dir))->Some_0,
            r is Err ==> exe_dir is None && standard_dir is None,
    {
        match resolve_data_directory(exe_dir, standard_dir) {
            Ok(path) => Ok(Bootstrap { resolved: path }),
            Err(e) => Err(e),
        }
    }

    /// The query accessor the front-end may call at any time once setup has
    /// succeeded: returns the cached path without re-running resolution, has
    /// no side effects, and cannot fail.
    pub fn data_directory(&self) -> (r: String)
        ensures
            r@ == self@,
    {
        self.resolved.clone()
    }

    /// The configuration for the window host: the window's storage root is
    /// the resolved data directory, the same value the accessor serves.
    pub fn window_config(&self) -> (c: WindowConfig)
        ensures
            c.storage_root@ == self@,
    {
        WindowConfig { storage_root: self.resolved.clone() }
    }
}

/// Idempotence of the accessor: any two results read from one ready
/// controller — whatever happens between the two calls — are identical,
/// because each equals the value cached at setup.
pub proof fn lemma_accessor_idempotent(b: Bootstrap, first: Seq<char>, second: Seq<char>)
    requires
        first == b@,
        second == b@,
    ensures
        first == second,
{
}

/// Process-wide agreement: the storage root configured into the window and
/// any later accessor result are the same path; no two consumers within one
/// process can disagree.
pub proof fn lemma_consumers_agree(b: Bootstrap, storage_root: Seq<char>, accessor_result: Seq<char>)
    requires
        storage_root == b@,
        accessor_result == b@,
    ensures
        storage_root == accessor_result,
{
}

} // verus!
