//! The project: the root of a build session, whose project path must lie
//! under its root path.
use vstd::prelude::*;
use crate::options::{memory_budget_of, NapiProjectOptions, ProjectOptions};

verus! {

/// Errors of configuring a project.
#[derive(Clone, Copy, PartialEq, Eq, Structural, Debug)]
pub enum ConfigError {
    /// The project path is not nested under the root path.
    ProjectPathOutsideRoot,
}

/// `root` is a whole-segment prefix of `path`: `path` is `root` itself or
/// continues it after a separator.
pub open spec fn is_segment_prefix(root: Seq<char>, path: Seq<char>) -> bool {
    &&& root.len() <= path.len()
    &&& path.subrange(0, root.len() as int) == root
    &&& (path.len() == root.len() || (root.len() > 0 && root.last() == '/') || path[root.len() as int]
        == '/')
}

/// `path` has a `..` segment at position `i`.
pub open spec fn parent_segment_at(path: Seq<char>, i: int) -> bool {
    &&& 0 <= i
    &&& i + 2 <= path.len()
    &&& path[i] == '.'
    &&& path[i + 1] == '.'
    &&& (i == 0 || path[i - 1] == '/')
    &&& (i + 2 == path.len() || path[i + 2] == '/')
}

/// `path` has a `..` segment, through which it could climb above a prefix.
pub open spec fn has_parent_segment(path: Seq<char>) -> bool {
    exists|i: int| parent_segment_at(path, i)
}

/// `path` is nested under `root`: it starts with the whole segments of
/// `root`, and holds no `..` segment that could lead out of it.
pub open spec fn is_nested_under(path: Seq<char>, root: Seq<char>) -> bool {
    is_segment_prefix(root, path) && !has_parent_segment(path)
}

/// The root of a build session. Its project path is nested under its root
/// path; it does not change once built.
pub struct Project {
    root_path: String,
    project_path: String,
    watch: bool,
    memory_budget: usize,
}

fn is_segment_prefix_exec(root: &str, path: &str) -> (r: bool)
    ensures
        r == is_segment_prefix(root@, path@),
{
    let rn = root.unicode_len();
    let pn = path.unicode_len();
    if rn > pn {
        return false;
    }
    let mut i: usize = 0;
    while i < rn
        invariant
            rn == root@.len(),
            pn == path@.len(),
            rn <= pn,
            i <= rn,
            forall|k: int| 0 <= k < i ==> path@[k] == root@[k],
        decreases rn - i,
    {
        if root.get_char(i) != path.get_char(i) {
            assert(path@.subrange(0, rn as int)[i as int] != root@[i as int]);
            return false;
        }
        i = i + 1;
    }
    assert(path@.subrange(0, rn as int) =~= root@);
    pn == rn || (rn > 0 && root.get_char(rn - 1) == '/') || path.get_char(rn) == '/'
}

fn has_parent_segment_exec(path: &str) -> (r: bool)
    ensures
        r == has_parent_segment(path@),
{
    let n = path.unicode_len();
    let mut i: usize = 0;
    while n >= 2 && i <= n - 2
        invariant
            n == path@.len(),
            i <= n,
            forall|k: int| 0 <= k < i ==> !parent_segment_at(path@, k),
        decreases n - i,
    {
        if path.get_char(i) == '.' && path.get_char(i + 1) == '.' && (i == 0 || path.get_char(i
            - 1) == '/') && (i + 2 == n || path.get_char(i + 2) == '/') {
            assert(parent_segment_at(path@, i as int));
            return true;
        }
        i = i + 1;
    }
    assert forall|k: int| !parent_segment_at(path@, k) by {
        if 0 <= k < i {
        } else if n >= 2 && k > n - 2 {
        }
    }
    false
}

/// Whether `path` is nested under `root`.
pub fn is_nested_path(path: &str, root: &str) -> (r: bool)
    ensures
        r == is_nested_under(path@, root@),
{
    is_segment_prefix_exec(root, path) && !has_parent_segment_exec(path)
}

impl Project {
    /// The project path lies under the root path.
    #[verifier::type_invariant]
    spec fn confined(&self) -> bool {
        is_nested_under(self.project_path@, self.root_path@)
    }

    /// The root path.
    pub closed spec fn root_path_view(&self) -> Seq<char> {
        self.root_path@
    }

    /// The project path.
    pub closed spec fn project_path_view(&self) -> Seq<char> {
        self.project_path@
    }

    /// Whether filesystem changes invalidate computations.
    pub closed spec fn watch_view(&self) -> bool {
        self.watch
    }

    /// The memory budget handed to the computation engine.
    pub closed spec fn memory_budget_view(&self) -> nat {
        self.memory_budget as nat
    }

    /// Builds a project from its options and the memory budget handed to the
    /// computation engine. Fails, and corrects nothing, where the project
    /// path is not nested under the root path.
    pub fn new(options: ProjectOptions, memory_budget: usize) -> (r: Result<Project, ConfigError>)
        ensures
            r.is_ok() <==> is_nested_under(options.project_path@, options.root_path@),
            r.is_err() ==> r == Err::<Project, _>(ConfigError::ProjectPathOutsideRoot),
            r.is_ok() ==> {
                let p = r.unwrap();
                &&& p.root_path_view() == options.root_path@
                &&& p.project_path_view() == options.project_path@
                &&& p.watch_view() == options.watch
                &&& p.memory_budget_view() == memory_budget as nat
            },
    {
        if !is_nested_path(options.project_path.as_str(), options.root_path.as_str()) {
            return Err(ConfigError::ProjectPathOutsideRoot);
        }
        Ok(
            Project {
                root_path: options.root_path,
                project_path: options.project_path,
                watch: options.watch,
                memory_budget,
            },
        )
    }

    /// The root path, under which every file accessed must be nested.
    pub fn root_path(&self) -> (r: &str)
        ensures
            r@ == self.root_path_view(),
    {
        self.root_path.as_str()
    }

    /// The path inside the root path that holds the routable sources.
    pub fn project_path(&self) -> (r: &str)
        ensures
            r@ == self.project_path_view(),
    {
        self.project_path.as_str()
    }

    /// Whether filesystem changes invalidate computations.
    pub fn watch(&self) -> (r: bool)
        ensures
            r == self.watch_view(),
    {
        self.watch
    }

    /// The memory budget handed to the computation engine.
    pub fn memory_budget(&self) -> (r: usize)
        ensures
            r as nat == self.memory_budget_view(),
    {
        self.memory_budget
    }
}

/// Creates the project that host options describe, with the memory budget
/// that their limit stands for. Fails where the project path is not nested
/// under the root path.
pub fn project_new(options: NapiProjectOptions) -> (r: Result<Project, ConfigError>)
    ensures
        r.is_ok() <==> is_nested_under(options.project_path@, options.root_path@),
        r.is_err() ==> r == Err::<Project, _>(ConfigError::ProjectPathOutsideRoot),
        r.is_ok() ==> {
            let p = r.unwrap();
            &&& p.root_path_view() == options.root_path@
            &&& p.project_path_view() == options.project_path@
            &&& p.watch_view() == options.watch
            &&& p.memory_budget_view() == memory_budget_of(options.memory_limit)
        },
{
    let budget = options.memory_budget();
    Project::new(options.into(), budget)
}

} // verus!
