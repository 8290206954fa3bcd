use vstd::prelude::*;

verus! {

/// Declares `std::io::Error` so that the library can carry it inside its error type.
#[verifier::external_type_specification]
#[verifier::external_body]
pub struct ExIoError(std::io::Error);

/// Declares `url::ParseError` so that the library can carry it inside its error type.
#[verifier::external_type_specification]
#[verifier::external_body]
pub struct ExParseError(url::ParseError);

/// Everything that can go wrong while taking a snapshot of a repository folder.
#[derive(Debug)]
pub enum GitHubFetchError {
    /// A local filesystem or process-launch failure.
    IoError(std::io::Error),
    /// The input is not a syntactically valid URL.
    UrlParseError(url::ParseError),
    /// Listing the remote branches or cloning failed, timed out, or no candidate branch exists.
    GitCloneError(String),
    /// The URL parsed but cannot be used: too few path segments, or the folder is absent.
    InvalidUrlError(String),
}

/// Relies on the `Display` impl of `std::io::Error`; its text comes from the operating
/// system, so nothing is stated of it.
#[verifier::external_body]
fn io_error_text(e: &std::io::Error) -> String {
    e.to_string()
}

/// Relies on the `Display` impl of `url::ParseError`, which writes a fixed, non-empty
/// description of each kind of parse failure.
#[verifier::external_body]
fn parse_error_text(e: &url::ParseError) -> (r: String)
    ensures
        r@.len() > 0,
{
    e.to_string()
}

impl GitHubFetchError {
    /// A human-readable description: the kind of failure, then its detail.
    pub fn message(&self) -> (r: String)
        ensures
            match self {
                GitHubFetchError::IoError(_) => "IO error: "@.is_prefix_of(r@),
                GitHubFetchError::UrlParseError(_) => "URL parse error: "@.is_prefix_of(r@)
                    && r@.len() > "URL parse error: "@.len(),
                GitHubFetchError::GitCloneError(s) => r@ == "Git clone error: "@ + s@,
                GitHubFetchError::InvalidUrlError(s) => r@ == "Invalid URL error: "@ + s@,
            },
    {
        match self {
            GitHubFetchError::IoError(e) => {
                let mut m = String::from_str("IO error: ");
                let detail = io_error_text(e);
                m.append(detail.as_str());
                assert("IO error: "@.is_prefix_of(m@)) by {
                    assert(m@.subrange(0, "IO error: "@.len() as int) =~= "IO error: "@);
                }
                m
            },
            GitHubFetchError::UrlParseError(e) => {
                let mut m = String::from_str("URL parse error: ");
                let detail = parse_error_text(e);
                m.append(detail.as_str());
                assert("URL parse error: "@.is_prefix_of(m@)) by {
                    assert(m@.subrange(0, "URL parse error: "@.len() as int) =~= "URL parse error: "@);
                }
                m
            },
            GitHubFetchError::GitCloneError(s) => {
                let mut m = String::from_str("Git clone error: ");
                m.append(s.as_str());
                m
            },
            GitHubFetchError::InvalidUrlError(s) => {
                let mut m = String::from_str("Invalid URL error: ");
                m.append(s.as_str());
                m
            },
        }
    }
}

impl From<std::io::Error> for GitHubFetchError {
    fn from(error: std::io::Error) -> (r: Self)
        ensures
            r == GitHubFetchError::IoError(error),
    {
        GitHubFetchError::IoError(error)
    }
}

impl vstd::std_specs::convert::FromSpecImpl<std::io::Error> for GitHubFetchError {
    open spec fn obeys_from_spec() -> bool {
        true
    }

    open spec fn from_spec(v: std::io::Error) -> GitHubFetchError {
        GitHubFetchError::IoError(v)
    }
}

impl From<url::ParseError> for GitHubFetchError {
    fn from(error: url::ParseError) -> (r: Self)
        ensures
            r == GitHubFetchError::UrlParseError(error),
    {
        GitHubFetchError::UrlParseError(error)
    }
}

impl vstd::std_specs::convert::FromSpecImpl<url::ParseError> for GitHubFetchError {
    open spec fn obeys_from_spec() -> bool {
        true
    }

    open spec fn from_spec(v: url::ParseError) -> GitHubFetchError {
        GitHubFetchError::UrlParseError(v)
    }
}

} // verus!
