use crate::error::AppResult;
use vstd::prelude::*;

verus! {

/// Removes files. Implementations touch the filesystem or stand in for it.
pub trait FsOps {
    fn remove_file(&self, path: &str) -> AppResult<()>;
}

} // verus!
