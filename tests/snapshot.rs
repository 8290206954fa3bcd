use repo_snapshot::aggregate::{folder_outcome, render_contents};
use repo_snapshot::branches::{available_branches, choose_branch, listed_branches, Branch};
use repo_snapshot::clone::{clone_arguments, clone_outcome, decimal, listing_arguments};
use repo_snapshot::fetch::{Action, Event, Fetch, Stage};
use repo_snapshot::github_url::parse_github_url;
use repo_snapshot::persist::persisted_file_name;
use repo_snapshot::{Args, GitHubFetchError};

fn names(list: &[&str]) -> Vec<Vec<u8>> {
    list.iter().map(|s| s.as_bytes().to_vec()).collect()
}

fn files(list: &[(&str, &str)]) -> Vec<(String, String)> {
    list.iter().map(|(n, t)| (n.to_string(), t.to_string())).collect()
}

#[test]
fn two_segment_url_resolves_to_repository() {
    let (clone, folder) = parse_github_url("https://github.com/rust-lang/rust").unwrap();
    assert_eq!(clone, "https://github.com/rust-lang/rust.git");
    assert_eq!(folder, "");
}

#[test]
fn two_segment_url_with_trailing_slash() {
    let (clone, folder) = parse_github_url("https://github.com/owner/repo/").unwrap();
    assert_eq!(clone, "https://github.com/owner/repo.git");
    assert_eq!(folder, "");
}

#[test]
fn trailing_segments_form_folder_in_order() {
    let (clone, folder) = parse_github_url("https://github.com/owner/repo/docs/guide/intro").unwrap();
    assert_eq!(clone, "https://github.com/owner/repo.git");
    assert_eq!(folder, "docs/guide/intro");
}

#[test]
fn tree_marker_and_branch_are_skipped() {
    let (clone, folder) =
        parse_github_url("https://github.com/owner/repo/tree/main/src/bin").unwrap();
    assert_eq!(clone, "https://github.com/owner/repo.git");
    assert_eq!(folder, "src/bin");
}

#[test]
fn lone_tree_segment_is_a_folder() {
    let (_, folder) = parse_github_url("https://github.com/owner/repo/tree").unwrap();
    assert_eq!(folder, "tree");
}

#[test]
fn unparsable_url_is_a_parse_error() {
    let r = parse_github_url("not a url");
    assert!(matches!(r, Err(GitHubFetchError::UrlParseError(_))));
}

#[test]
fn one_segment_url_is_invalid() {
    let r = parse_github_url("https://github.com/owner");
    assert!(matches!(r, Err(GitHubFetchError::InvalidUrlError(_))));
}

#[test]
fn url_without_path_is_invalid() {
    let r = parse_github_url("mailto:someone@example.com");
    assert!(matches!(r, Err(GitHubFetchError::InvalidUrlError(_))));
}

#[test]
fn listing_yields_branch_names_in_order() {
    let out = b"1111\trefs/heads/main\n2222\trefs/heads/feature/x\n3333\trefs/tags/v1\n4444 refs/heads/master\r\n";
    assert_eq!(listed_branches(out), names(&["main", "feature/x", "master"]));
}

#[test]
fn listing_without_trailing_newline_and_odd_lines() {
    let out = b"\n   \nabc\n  5555   refs/heads/dev  extra\n6666\trefs/heads/last";
    assert_eq!(listed_branches(out), names(&["dev", "last"]));
}

#[test]
fn empty_listing_has_no_branches() {
    assert!(listed_branches(b"").is_empty());
}

#[test]
fn failed_listing_is_a_clone_error() {
    let r = available_branches(false, b"1111\trefs/heads/main\n");
    assert!(matches!(r, Err(GitHubFetchError::GitCloneError(_))));
}

#[test]
fn main_is_preferred_over_master() {
    let r = choose_branch(&names(&["master", "dev", "main"]));
    assert!(matches!(r, Ok(Branch::Main)));
}

#[test]
fn master_is_chosen_without_main() {
    let r = choose_branch(&names(&["dev", "master"]));
    assert!(matches!(r, Ok(Branch::Master)));
}

#[test]
fn no_candidate_branch_fails() {
    let r = choose_branch(&names(&["dev", "mainline", "trunk"]));
    assert!(matches!(r, Err(GitHubFetchError::GitCloneError(_))));
}

#[test]
fn decimal_writes_digits() {
    assert_eq!(decimal(0), "0");
    assert_eq!(decimal(30), "30");
    assert_eq!(decimal(4294967295), "4294967295");
}

#[test]
fn listing_command_line() {
    assert_eq!(
        listing_arguments("https://github.com/o/r.git"),
        vec!["git", "ls-remote", "--heads", "https://github.com/o/r.git"]
    );
}

#[test]
fn clone_command_line() {
    assert_eq!(
        clone_arguments(30, Branch::Master, "https://github.com/o/r.git"),
        vec![
            "timeout",
            "30",
            "git",
            "clone",
            "--depth",
            "1",
            "--single-branch",
            "--branch",
            "master",
            "https://github.com/o/r.git"
        ]
    );
}

#[test]
fn timed_out_clone_is_a_clone_error() {
    match clone_outcome(false, 5) {
        Err(GitHubFetchError::GitCloneError(m)) => {
            assert_eq!(m, "Git clone timed out after 5 seconds or failed.")
        }
        _ => panic!("expected a clone error"),
    }
    assert!(clone_outcome(true, 5).is_ok());
}

#[test]
fn two_files_are_aggregated_in_order() {
    let text = render_contents("docs", &files(&[("a.txt", "hello"), ("b.txt", "world")]));
    assert_eq!(text, "File: docs/a.txt\nhello\n\nFile: docs/b.txt\nworld\n\n");
}

#[test]
fn listing_order_is_kept() {
    let text = render_contents("docs", &files(&[("b.txt", "world"), ("a.txt", "hello")]));
    assert_eq!(text, "File: docs/b.txt\nworld\n\nFile: docs/a.txt\nhello\n\n");
}

#[test]
fn empty_folder_gives_empty_text() {
    assert_eq!(render_contents("", &Vec::new()), "");
}

#[test]
fn missing_folder_is_invalid_url() {
    match folder_outcome(false, false, "docs") {
        Err(GitHubFetchError::InvalidUrlError(m)) => {
            assert_eq!(m, "Folder docs not found in the repository.")
        }
        _ => panic!("expected an invalid URL error"),
    }
}

#[test]
fn file_in_place_of_folder_is_invalid_url() {
    match folder_outcome(true, false, "README.md") {
        Err(GitHubFetchError::InvalidUrlError(m)) => {
            assert_eq!(m, "Folder README.md is not a directory.")
        }
        _ => panic!("expected an invalid URL error"),
    }
    assert!(folder_outcome(true, true, "docs").is_ok());
}

#[test]
fn error_messages_name_their_kind() {
    assert_eq!(
        GitHubFetchError::GitCloneError("x".to_string()).message(),
        "Git clone error: x"
    );
    assert_eq!(
        GitHubFetchError::InvalidUrlError("y".to_string()).message(),
        "Invalid URL error: y"
    );
    let parse = GitHubFetchError::from(url::ParseError::EmptyHost).message();
    assert_eq!(parse, "URL parse error: empty host");
    let io = GitHubFetchError::from(std::io::Error::new(std::io::ErrorKind::Other, "disk"));
    assert_eq!(io.message(), "IO error: disk");
}

fn args(url: &str, timeout: u32) -> Args {
    Args { url: url.to_string(), timeout }
}

#[test]
fn fetch_runs_through_all_stages() {
    let (mut f, a) = Fetch::start(&args("https://github.com/owner/repo/docs", 30));
    match a {
        Action::ListBranches(c) => {
            assert_eq!(c, vec!["git", "ls-remote", "--heads", "https://github.com/owner/repo.git"])
        }
        _ => panic!("expected a listing"),
    }
    let a = f.step(Event::Listed {
        success: true,
        output: b"1\trefs/heads/master\n2\trefs/heads/main\n".to_vec(),
    });
    match a {
        Action::Clone(c) => {
            assert_eq!(c[1], "30");
            assert_eq!(c[8], "main");
            assert_eq!(c[9], "https://github.com/owner/repo.git");
        }
        _ => panic!("expected a clone"),
    }
    match f.step(Event::Cloned { success: true }) {
        Action::InspectFolder(p) => assert_eq!(p, "docs"),
        _ => panic!("expected an inspection"),
    }
    match f.step(Event::Inspected { exists: true, is_dir: true }) {
        Action::ReadFolder(p) => assert_eq!(p, "docs"),
        _ => panic!("expected a read"),
    }
    match f.step(Event::Read(files(&[("a.txt", "hello"), ("b.txt", "world")]))) {
        Action::Finish(Ok(text)) => {
            assert_eq!(text, "File: docs/a.txt\nhello\n\nFile: docs/b.txt\nworld\n\n")
        }
        _ => panic!("expected the aggregated text"),
    }
    assert_eq!(f.stage, Stage::Done);
}

#[test]
fn fetch_stops_on_clone_timeout() {
    let (mut f, _) = Fetch::start(&args("https://github.com/owner/repo", 7));
    let a = f.step(Event::Listed { success: true, output: b"1\trefs/heads/master\n".to_vec() });
    assert!(matches!(a, Action::Clone(_)));
    match f.step(Event::Cloned { success: false }) {
        Action::Finish(Err(GitHubFetchError::GitCloneError(m))) => {
            assert_eq!(m, "Git clone timed out after 7 seconds or failed.")
        }
        _ => panic!("expected a clone error"),
    }
    assert_eq!(f.stage, Stage::Done);
}

#[test]
fn fetch_stops_on_missing_folder() {
    let (mut f, _) = Fetch::start(&args("https://github.com/owner/repo/nope", 30));
    f.step(Event::Listed { success: true, output: b"1\trefs/heads/main\n".to_vec() });
    f.step(Event::Cloned { success: true });
    let a = f.step(Event::Inspected { exists: false, is_dir: false });
    assert!(matches!(a, Action::Finish(Err(GitHubFetchError::InvalidUrlError(_)))));
}

#[test]
fn fetch_stops_without_candidate_branch() {
    let (mut f, _) = Fetch::start(&args("https://github.com/owner/repo", 30));
    assert!(f.accepts(&Event::Listed { success: true, output: Vec::new() }));
    assert!(!f.accepts(&Event::Cloned { success: true }));
    let a = f.step(Event::Listed { success: true, output: b"1\trefs/heads/trunk\n".to_vec() });
    assert!(matches!(a, Action::Finish(Err(GitHubFetchError::GitCloneError(_)))));
}

#[test]
fn fetch_of_bad_url_finishes_at_once() {
    let (f, a) = Fetch::start(&args("github.com/owner/repo", 30));
    assert!(matches!(a, Action::Finish(Err(GitHubFetchError::UrlParseError(_)))));
    assert_eq!(f.stage, Stage::Done);
}

#[test]
fn stored_name_drops_git_suffix_and_flattens_folder() {
    assert_eq!(persisted_file_name("repo.git", "docs/guide/intro"), "repo_docs_guide_intro.txt");
    assert_eq!(persisted_file_name("tool", "src"), "tool_src.txt");
    assert_eq!(persisted_file_name("git", ""), "git_.txt");
    assert_eq!(persisted_file_name(".git", "a/b"), "_a_b.txt");
}
