use vstd::prelude::*;

verus! {

/// Finds the project that new records belong to.
pub struct ContextManager;

impl ContextManager {
    /// The scope of the records made from `current_dir`: the root of the working
    /// tree of the repository that encloses it, where one was found, and
    /// `current_dir` itself where none was.
    pub fn resolve(current_dir: String, repo_root: Option<String>) -> (r: String)
        ensures
            r@ == (match repo_root {
                Some(w) => w@,
                None => current_dir@,
            }),
    {
        match repo_root {
            Some(w) => w,
            None => current_dir,
        }
    }
}

} // verus!
