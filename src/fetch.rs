use vstd::prelude::*;

use crate::aggregate::{
    aggregated,
    files_view,
    folder_outcome,
    missing_folder_message,
    not_directory_message,
    render_contents,
};
use crate::branches::{available_branches, choose_branch, bytes_view, listed_branch_names, main_name, master_name, Branch};
use crate::clone::{clone_arguments, clone_command, clone_failure_message, clone_outcome, listing_arguments, listing_command};
use crate::error::GitHubFetchError;
use crate::github_url::{parse_github_url, resolved_target, strings_view, url_path_segments};
use crate::Args;

verus! {

/// What the runner of a fetch must do next.
pub enum Action {
    /// Run this command line, program first, and report its exit status and output.
    ListBranches(Vec<String>),
    /// Run this command line, program first, with the workspace directory appended, and
    /// report whether it succeeded.
    Clone(Vec<String>),
    /// Report whether this path inside the workspace exists and is a directory.
    InspectFolder(String),
    /// Read the direct children of this workspace folder that are regular files, in
    /// listing order, as (file name, text) pairs.
    ReadFolder(String),
    /// The fetch is over, with this result.
    Finish(Result<String, GitHubFetchError>),
}

/// What the runner observed when it performed an action.
pub enum Event {
    Listed { success: bool, output: Vec<u8> },
    Cloned { success: bool },
    Inspected { exists: bool, is_dir: bool },
    Read(Vec<(String, String)>),
}

/// Where a fetch stands.
#[derive(Clone, Copy, Debug, PartialEq, Eq, Structural)]
pub enum Stage {
    Listing,
    Cloning,
    Inspecting,
    Reading,
    Done,
}

/// Whether `event` answers the action that a fetch at `stage` asked for.
pub open spec fn answers(stage: Stage, event: Event) -> bool {
    match event {
        Event::Listed { .. } => stage == Stage::Listing,
        Event::Cloned { .. } => stage == Stage::Cloning,
        Event::Inspected { .. } => stage == Stage::Inspecting,
        Event::Read(_) => stage == Stage::Reading,
    }
}

/// The branch chosen among listed names, if any.
pub open spec fn chosen_branch(names: Seq<Seq<u8>>) -> Option<Branch> {
    if names.contains(main_name()) {
        Some(Branch::Main)
    } else if names.contains(master_name()) {
        Some(Branch::Master)
    } else {
        None
    }
}

/// One fetch of a repository folder: the resolved target, the clone timeout, and the
/// stage reached.
pub struct Fetch {
    pub timeout: u32,
    pub clone_url: String,
    pub folder: String,
    pub stage: Stage,
}

impl Fetch {
    /// Starts a fetch: resolves the URL and asks for the branch listing, or finishes
    /// with the resolver's error.
    pub fn start(args: &Args) -> (r: (Fetch, Action))
        ensures
            match url_path_segments(args.url@) {
                Some(Some(segs)) => if segs.len() >= 2 {
                    &&& r.0.stage == Stage::Listing
                    &&& r.0.timeout == args.timeout
                    &&& (r.0.clone_url@, r.0.folder@) == resolved_target(segs)
                    &&& r.1 matches Action::ListBranches(c)
                    &&& strings_view(c@) == listing_command(r.0.clone_url@)
                } else {
                    &&& r.0.stage == Stage::Done
                    &&& r.1 matches Action::Finish(Err(GitHubFetchError::InvalidUrlError(_)))
                },
                Some(None) => {
                    &&& r.0.stage == Stage::Done
                    &&& r.1 matches Action::Finish(Err(GitHubFetchError::InvalidUrlError(_)))
                },
                None => {
                    &&& r.0.stage == Stage::Done
                    &&& r.1 matches Action::Finish(Err(GitHubFetchError::UrlParseError(_)))
                },
            },
    {
        match parse_github_url(args.url.as_str()) {
            Ok((clone_url, folder)) => {
                let command = listing_arguments(clone_url.as_str());
                let f = Fetch { timeout: args.timeout, clone_url, folder, stage: Stage::Listing };
                (f, Action::ListBranches(command))
            },
            Err(e) => {
                let f = Fetch {
                    timeout: args.timeout,
                    clone_url: String::new(),
                    folder: String::new(),
                    stage: Stage::Done,
                };
                (f, Action::Finish(Err(e)))
            },
        }
    }

    /// Whether `event` answers the action this fetch asked for.
    pub fn accepts(&self, event: &Event) -> (r: bool)
        ensures
            r == answers(self.stage, *event),
    {
        match event {
            Event::Listed { .. } => self.stage == Stage::Listing,
            Event::Cloned { .. } => self.stage == Stage::Cloning,
            Event::Inspected { .. } => self.stage == Stage::Inspecting,
            Event::Read(_) => self.stage == Stage::Reading,
        }
    }

    /// Takes the runner's report on the last action and decides the next one.
    pub fn step(&mut self, event: Event) -> (r: Action)
        requires
            answers(old(self).stage, event),
        ensures
            final(self).timeout == old(self).timeout,
            final(self).clone_url == old(self).clone_url,
            final(self).folder == old(self).folder,
            match event {
                Event::Listed { success, output } => if !success {
                    &&& final(self).stage == Stage::Done
                    &&& r matches Action::Finish(Err(GitHubFetchError::GitCloneError(_)))
                } else {
                    match chosen_branch(listed_branch_names(output@)) {
                        Some(b) => {
                            &&& final(self).stage == Stage::Cloning
                            &&& r matches Action::Clone(c)
                            &&& strings_view(c@) == clone_command(
                                old(self).timeout as nat,
                                b,
                                old(self).clone_url@,
                            )
                        },
                        None => {
                            &&& final(self).stage == Stage::Done
                            &&& r matches Action::Finish(Err(GitHubFetchError::GitCloneError(_)))
                        },
                    }
                },
                Event::Cloned { success } => if success {
                    &&& final(self).stage == Stage::Inspecting
                    &&& r matches Action::InspectFolder(p)
                    &&& p@ == old(self).folder@
                } else {
                    &&& final(self).stage == Stage::Done
                    &&& r matches Action::Finish(Err(GitHubFetchError::GitCloneError(m)))
                    &&& m@ == clone_failure_message(old(self).timeout as nat)
                },
                Event::Inspected { exists, is_dir } => if !exists {
                    &&& final(self).stage == Stage::Done
                    &&& r matches Action::Finish(Err(GitHubFetchError::InvalidUrlError(m)))
                    &&& m@ == missing_folder_message(old(self).folder@)
                } else if !is_dir {
                    &&& final(self).stage == Stage::Done
                    &&& r matches Action::Finish(Err(GitHubFetchError::InvalidUrlError(m)))
                    &&& m@ == not_directory_message(old(self).folder@)
                } else {
                    &&& final(self).stage == Stage::Reading
                    &&& r matches Action::ReadFolder(p)
                    &&& p@ == old(self).folder@
                },
                Event::Read(files) => {
                    &&& final(self).stage == Stage::Done
                    &&& r matches Action::Finish(Ok(text))
                    &&& text@ == aggregated(old(self).folder@, files_view(files@))
                },
            },
    {
        match event {
            Event::Listed { success, output } => {
                let names = match available_branches(success, output.as_slice()) {
                    Ok(names) => names,
                    Err(e) => {
                        self.stage = Stage::Done;
                        return Action::Finish(Err(e));
                    },
                };
                proof {
                    assert(bytes_view(names@) == listed_branch_names(output@));
                }
                match choose_branch(&names) {
                    Ok(b) => {
                        self.stage = Stage::Cloning;
                        Action::Clone(clone_arguments(self.timeout, b, self.clone_url.as_str()))
                    },
                    Err(e) => {
                        self.stage = Stage::Done;
                        Action::Finish(Err(e))
                    },
                }
            },
            Event::Cloned { success } => match clone_outcome(success, self.timeout) {
                Ok(()) => {
                    self.stage = Stage::Inspecting;
                    Action::InspectFolder(self.folder.clone())
                },
                Err(e) => {
                    self.stage = Stage::Done;
                    Action::Finish(Err(e))
                },
            },
            Event::Inspected { exists, is_dir } => match folder_outcome(
                exists,
                is_dir,
                self.folder.as_str(),
            ) {
                Ok(()) => {
                    self.stage = Stage::Reading;
                    Action::ReadFolder(self.folder.clone())
                },
                Err(e) => {
                    self.stage = Stage::Done;
                    Action::Finish(Err(e))
                },
            },
            Event::Read(files) => {
                self.stage = Stage::Done;
                Action::Finish(Ok(render_contents(self.folder.as_str(), &files)))
            },
        }
    }
}

} // verus!
