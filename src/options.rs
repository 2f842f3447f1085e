//! Options handed in by the host, and their conversion into the options the
//! project and its computations take.
use vstd::prelude::*;

verus! {

/// Build-scope options of a project, as the host hands them over.
pub struct NapiProjectOptions {
    /// A root path under which every file accessed must be nested; think of
    /// it as a chroot.
    pub root_path: String,
    /// A path inside `root_path` holding the app/pages directories.
    pub project_path: String,
    /// Whether filesystem changes invalidate computations.
    pub watch: bool,
    /// An upper bound of memory, in bytes, that the computation engine tries
    /// to stay under. `None` means unbounded.
    pub memory_limit: Option<u64>,
}

/// Build-scope options of a project.
pub struct ProjectOptions {
    pub root_path: String,
    pub project_path: String,
    pub watch: bool,
}

/// Options of one entrypoints subscription, as the host hands them over.
pub struct NapiEntrypointsOptions {
    /// File extensions to scan inside the project, in matching order.
    pub page_extensions: Vec<String>,
}

/// Options of one entrypoints computation.
pub struct EntrypointsOptions {
    pub page_extensions: Vec<String>,
}

/// The memory budget that a limit stands for: the limit itself, capped at the
/// largest `usize`, or the largest `usize` where there is no limit.
pub open spec fn memory_budget_of(limit: Option<u64>) -> nat {
    match limit {
        Some(m) => if m <= usize::MAX { m as nat } else { usize::MAX as nat },
        None => usize::MAX as nat,
    }
}

impl NapiProjectOptions {
    /// The memory budget handed to the computation engine.
    pub fn memory_budget(&self) -> (r: usize)
        ensures
            r as nat == memory_budget_of(self.memory_limit),
    {
        match self.memory_limit {
            Some(m) => {
                if m as u128 <= usize::MAX as u128 {
                    m as usize
                } else {
                    usize::MAX
                }
            },
            None => usize::MAX,
        }
    }

    /// The project options these host options stand for; the memory limit is
    /// engine configuration and is not part of them.
    pub fn into(self) -> (r: ProjectOptions)
        ensures
            r.root_path@ == self.root_path@,
            r.project_path@ == self.project_path@,
            r.watch == self.watch,
    {
        ProjectOptions {
            root_path: self.root_path,
            project_path: self.project_path,
            watch: self.watch,
        }
    }
}

impl NapiEntrypointsOptions {
    /// The entrypoints options these host options stand for.
    pub fn into(self) -> (r: EntrypointsOptions)
        ensures
            r.page_extensions@ == self.page_extensions@,
    {
        EntrypointsOptions { page_extensions: self.page_extensions }
    }
}

} // verus!
