use vstd::prelude::*;

use crate::branches::Branch;
use crate::error::GitHubFetchError;
use crate::github_url::strings_view;

verus! {

/// The text of one decimal digit.
pub open spec fn digit_text(d: nat) -> Seq<char> {
    if d == 0 {
        "0"@
    } else if d == 1 {
        "1"@
    } else if d == 2 {
        "2"@
    } else if d == 3 {
        "3"@
    } else if d == 4 {
        "4"@
    } else if d == 5 {
        "5"@
    } else if d == 6 {
        "6"@
    } else if d == 7 {
        "7"@
    } else if d == 8 {
        "8"@
    } else {
        "9"@
    }
}

/// The decimal notation of `n`, without leading zeros.
pub open spec fn decimal_text(n: nat) -> Seq<char>
    decreases n,
{
    if n < 10 {
        digit_text(n)
    } else {
        decimal_text(n / 10) + digit_text(n % 10)
    }
}

fn digit_str(d: u32) -> (r: &'static str)
    requires
        d < 10,
    ensures
        r@ == digit_text(d as nat),
{
    match d {
        0 => "0",
        1 => "1",
        2 => "2",
        3 => "3",
        4 => "4",
        5 => "5",
        6 => "6",
        7 => "7",
        8 => "8",
        _ => "9",
    }
}

/// Writes `n` in decimal.
pub fn decimal(n: u32) -> (r: String)
    ensures
        r@ == decimal_text(n as nat),
    decreases n,
{
    if n < 10 {
        String::from_str(digit_str(n))
    } else {
        let mut s = decimal(n / 10);
        s.append(digit_str(n % 10));
        s
    }
}

/// The command line that lists the branches of a remote repository.
pub open spec fn listing_command(repo_url: Seq<char>) -> Seq<Seq<char>> {
    seq!["git"@, "ls-remote"@, "--heads"@, repo_url]
}

/// The command line that lists the branches of `repo_url`, program first.
pub fn listing_arguments(repo_url: &str) -> (r: Vec<String>)
    ensures
        strings_view(r@) == listing_command(repo_url@),
{
    let mut v: Vec<String> = Vec::new();
    v.push(String::from_str("git"));
    v.push(String::from_str("ls-remote"));
    v.push(String::from_str("--heads"));
    v.push(String::from_str(repo_url));
    assert(strings_view(v@) =~= listing_command(repo_url@));
    v
}

/// The command line of a shallow single-branch clone of `branch` from `repo_url`, run
/// under `timeout` so that it is killed after `seconds`; the destination directory is
/// the one argument still to add.
pub open spec fn clone_command(seconds: nat, branch: Branch, repo_url: Seq<char>) -> Seq<
    Seq<char>,
> {
    seq![
        "timeout"@,
        decimal_text(seconds),
        "git"@,
        "clone"@,
        "--depth"@,
        "1"@,
        "--single-branch"@,
        "--branch"@,
        branch.spec_name(),
        repo_url,
    ]
}

/// The clone command line for `branch` of `repo_url` bounded by `timeout` seconds,
/// program first, destination directory left out.
pub fn clone_arguments(timeout: u32, branch: Branch, repo_url: &str) -> (r: Vec<String>)
    ensures
        strings_view(r@) == clone_command(timeout as nat, branch, repo_url@),
{
    let mut v: Vec<String> = Vec::new();
    v.push(String::from_str("timeout"));
    v.push(decimal(timeout));
    v.push(String::from_str("git"));
    v.push(String::from_str("clone"));
    v.push(String::from_str("--depth"));
    v.push(String::from_str("1"));
    v.push(String::from_str("--single-branch"));
    v.push(String::from_str("--branch"));
    v.push(String::from_str(branch.name()));
    v.push(String::from_str(repo_url));
    assert(strings_view(v@) =~= clone_command(timeout as nat, branch, repo_url@));
    v
}

/// The message of a clone that failed or ran out of time.
pub open spec fn clone_failure_message(seconds: nat) -> Seq<char> {
    "Git clone timed out after "@ + decimal_text(seconds) + " seconds or failed."@
}

/// The outcome of the clone command, given whether it exited successfully within
/// `timeout` seconds.
pub fn clone_outcome(success: bool, timeout: u32) -> (r: Result<(), GitHubFetchError>)
    ensures
        success ==> r is Ok,
        !success ==> (r matches Err(GitHubFetchError::GitCloneError(m)) && m@
            == clone_failure_message(timeout as nat)),
{
    if success {
        Ok(())
    } else {
        let mut m = String::from_str("Git clone timed out after ");
        let secs = decimal(timeout);
        m.append(secs.as_str());
        m.append(" seconds or failed.");
        Err(GitHubFetchError::GitCloneError(m))
    }
}

} // verus!
