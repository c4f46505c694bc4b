//! The state of the repository as the dashboard shows it.

use crate::text::first_line;
use crate::text::first_line_of;
use vstd::prelude::*;
use vstd::string::StringExecFns;

verus! {

/// The state of the repository.
#[derive(Debug, Clone)]
pub struct GitStatus {
    pub branch: String,
    pub commits_ahead: usize,
    pub commits_behind: usize,
    pub staged: usize,
    pub unstaged: usize,
    pub untracked: usize,
    /// The first line of the last commit's message.
    pub last_commit_message: String,
    pub last_commit_author: String,
}

/// What git says of one path: how it differs in the index from the last
/// commit, and in the working tree from the index.
#[derive(Debug, Clone, Copy, PartialEq, Eq, Structural)]
pub struct EntryStatus {
    pub index_new: bool,
    pub index_modified: bool,
    pub index_deleted: bool,
    pub wt_new: bool,
    pub wt_modified: bool,
    pub wt_deleted: bool,
}

/// The three counts that the dashboard keeps of the paths.
pub enum Change {
    /// A change of the path is staged.
    Staged,
    /// The path differs in the working tree from the index.
    Unstaged,
    /// Git does not track the path.
    Untracked,
}

impl EntryStatus {
    /// Whether the path counts under `change`.
    pub open spec fn counts_as(self, change: Change) -> bool {
        match change {
            Change::Staged => self.index_new || self.index_modified || self.index_deleted,
            Change::Unstaged => self.wt_new || self.wt_modified || self.wt_deleted,
            Change::Untracked => self.wt_new,
        }
    }
}

/// How many of `entries` count under `change`.
pub open spec fn count_of(entries: Seq<EntryStatus>, change: Change) -> nat
    decreases entries.len(),
{
    if entries.len() == 0 {
        0
    } else {
        count_of(entries.drop_last(), change) + if entries.last().counts_as(change) {
            1nat
        } else {
            0nat
        }
    }
}

/// What was read of a repository. A part that could not be read is `None`.
#[derive(Debug, Clone)]
pub struct RepoReport {
    /// The short name of what `HEAD` points to.
    pub head_name: Option<String>,
    /// The commits that `HEAD` is ahead of its upstream and behind it.
    pub ahead_behind: Option<(usize, usize)>,
    /// The status of each path that has one.
    pub entries: Option<Vec<EntryStatus>>,
    /// The whole message of the last commit.
    pub commit_message: Option<String>,
    pub commit_author: Option<String>,
}

/// The view of an optional text, the empty text standing for none.
pub open spec fn text_or_empty(text: Option<String>) -> Seq<char> {
    match text {
        Some(t) => t@,
        None => Seq::<char>::empty(),
    }
}

/// Whether `status` is what the dashboard shows of the repository of which
/// `report` was read.
pub open spec fn shows_report(status: GitStatus, report: RepoReport) -> bool {
    let entries = match report.entries {
        Some(e) => e@,
        None => Seq::<EntryStatus>::empty(),
    };
    &&& status.branch@ == match report.head_name {
        Some(name) => name@,
        None => "detached"@,
    }
    &&& status.commits_ahead == match report.ahead_behind {
        Some(pair) => pair.0,
        None => 0,
    }
    &&& status.commits_behind == match report.ahead_behind {
        Some(pair) => pair.1,
        None => 0,
    }
    &&& status.staged == count_of(entries, Change::Staged)
    &&& status.unstaged == count_of(entries, Change::Unstaged)
    &&& status.untracked == count_of(entries, Change::Untracked)
    &&& status.last_commit_message@ == first_line_of(text_or_empty(report.commit_message))
    &&& status.last_commit_author@ == text_or_empty(report.commit_author)
}

/// What the dashboard makes of a repository's state.
pub struct GitModule;

impl GitModule {
    /// How many of `entries` are staged, how many unstaged and how many
    /// untracked. One entry may count under more than one of the three.
    pub fn tally(entries: &Vec<EntryStatus>) -> (counts: (usize, usize, usize))
        ensures
            counts.0 == count_of(entries@, Change::Staged),
            counts.1 == count_of(entries@, Change::Unstaged),
            counts.2 == count_of(entries@, Change::Untracked),
    {
        let mut staged: usize = 0;
        let mut unstaged: usize = 0;
        let mut untracked: usize = 0;
        let mut i: usize = 0;
        while i < entries.len()
            invariant
                i <= entries.len(),
                staged <= i,
                unstaged <= i,
                untracked <= i,
                staged == count_of(entries@.take(i as int), Change::Staged),
                unstaged == count_of(entries@.take(i as int), Change::Unstaged),
                untracked == count_of(entries@.take(i as int), Change::Untracked),
            decreases entries.len() - i,
        {
            let entry = entries[i];
            proof {
                let next = entries@.take(i + 1);
                assert(next.drop_last() =~= entries@.take(i as int));
                assert(next.last() == entries@[i as int]);
            }
            if entry.index_new || entry.index_modified || entry.index_deleted {
                staged += 1;
            }
            if entry.wt_new || entry.wt_modified || entry.wt_deleted {
                unstaged += 1;
            }
            if entry.wt_new {
                untracked += 1;
            }
            i += 1;
        }
        assert(entries@.take(i as int) =~= entries@);
        (staged, unstaged, untracked)
    }

    /// The name under which git keeps the upstream branch `upstream`.
    pub fn upstream_ref(upstream: &str) -> (name: String)
        ensures
            name@ == "refs/remotes/"@ + upstream@,
    {
        let mut name = "refs/remotes/".to_owned();
        name.append(upstream);
        name
    }

    /// What the dashboard shows of the repository of which `report` was read.
    pub fn status_from(report: &RepoReport) -> (status: GitStatus)
        ensures
            shows_report(status, *report),
    {
        let branch = match &report.head_name {
            Some(name) => name.clone(),
            None => "detached".to_owned(),
        };
        let (commits_ahead, commits_behind) = match report.ahead_behind {
            Some(pair) => pair,
            None => (0, 0),
        };
        let (staged, unstaged, untracked) = match &report.entries {
            Some(entries) => Self::tally(entries),
            None => (0, 0, 0),
        };
        let last_commit_message = match &report.commit_message {
            Some(message) => first_line(message.as_str()),
            None => {
                assert(first_line_of(Seq::<char>::empty()) =~= Seq::<char>::empty());
                String::new()
            },
        };
        let last_commit_author = match &report.commit_author {
            Some(author) => author.clone(),
            None => String::new(),
        };
        GitStatus {
            branch,
            commits_ahead,
            commits_behind,
            staged,
            unstaged,
            untracked,
            last_commit_message,
            last_commit_author,
        }
    }
}

impl GitStatus {
    /// Whether this is the state that stands in before the repository was read.
    pub open spec fn is_placeholder(&self) -> bool {
        &&& self.branch@ == "unknown"@
        &&& self.commits_ahead == 0
        &&& self.commits_behind == 0
        &&& self.staged == 0
        &&& self.unstaged == 0
        &&& self.untracked == 0
        &&& self.last_commit_message@.len() == 0
        &&& self.last_commit_author@.len() == 0
    }
}

impl Default for GitStatus {
    fn default() -> (status: GitStatus)
        ensures
            status.is_placeholder(),
    {
        GitStatus {
            branch: "unknown".to_owned(),
            commits_ahead: 0,
            commits_behind: 0,
            staged: 0,
            unstaged: 0,
            untracked: 0,
            last_commit_message: String::new(),
            last_commit_author: String::new(),
        }
    }
}

} // verus!
