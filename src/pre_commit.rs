//! The shape of a pre-commit configuration (<https://pre-commit.com/>): a list
//! of repositories, each with hooks, each hook with the command line it runs.

use vstd::prelude::*;

verus! {

/// A whole configuration file.
pub struct Config {
    pub repos: Vec<Repo>,
}

/// One repository entry and its hooks.
pub struct Repo {
    pub hooks: Vec<Hook>,
}

/// One hook: the command line that it runs.
pub struct Hook {
    pub entry: String,
}

} // verus!
