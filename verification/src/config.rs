//! What is to be committed, and where.

use vstd::prelude::*;

verus! {

/// The repository, the branch, and the commit that a new branch starts from.
#[derive(Debug)]
pub struct Config {
    pub git_branch_name: String,
    pub git_head_object_id: String,
    pub github_repo_name: String,
    pub github_repo_owner: String,
}

} // verus!
