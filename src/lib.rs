use vstd::prelude::*;

pub mod aggregate;
pub mod branches;
pub mod clone;
pub mod error;
pub mod fetch;
pub mod github_url;
pub mod persist;

pub use error::GitHubFetchError;

verus! {

/// One fetch request: the repository URL and the clone timeout in seconds.
pub struct Args {
    pub url: String,
    pub timeout: u32,
}

} // verus!
