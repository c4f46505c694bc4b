use devdash::modules::git::EntryStatus;
use devdash::modules::git::GitModule;
use devdash::modules::git::GitStatus;
use devdash::modules::git::RepoReport;

fn clean() -> EntryStatus {
    EntryStatus {
        index_new: false,
        index_modified: false,
        index_deleted: false,
        wt_new: false,
        wt_modified: false,
        wt_deleted: false,
    }
}

#[test]
fn git_placeholder() {
    let status = GitStatus::default();
    assert_eq!(status.branch, "unknown");
    assert_eq!(status.commits_ahead, 0);
    assert_eq!(status.commits_behind, 0);
    assert_eq!(status.staged, 0);
    assert_eq!(status.unstaged, 0);
    assert_eq!(status.untracked, 0);
    assert_eq!(status.last_commit_message, "");
    assert_eq!(status.last_commit_author, "");
}

#[test]
fn tally_counts_each_kind() {
    let entries = vec![
        EntryStatus { index_new: true, ..clean() },
        EntryStatus { index_modified: true, ..clean() },
        EntryStatus { index_deleted: true, ..clean() },
        EntryStatus { wt_new: true, ..clean() },
        EntryStatus { wt_modified: true, ..clean() },
        EntryStatus { wt_deleted: true, ..clean() },
        clean(),
    ];
    assert_eq!(GitModule::tally(&entries), (3, 3, 1));
    assert_eq!(GitModule::tally(&Vec::new()), (0, 0, 0));
}

#[test]
fn one_entry_may_count_more_than_once() {
    let entries = vec![
        EntryStatus { index_modified: true, wt_modified: true, ..clean() },
        EntryStatus { index_new: true, wt_new: true, ..clean() },
        EntryStatus { index_new: true, index_modified: true, index_deleted: true, ..clean() },
    ];
    assert_eq!(GitModule::tally(&entries), (3, 2, 1));
}

#[test]
fn untracked_files_count_as_unstaged_too() {
    let entries = vec![EntryStatus { wt_new: true, ..clean() }; 4];
    assert_eq!(GitModule::tally(&entries), (0, 4, 4));
}

#[test]
fn upstream_ref_name() {
    assert_eq!(GitModule::upstream_ref("origin/main"), "refs/remotes/origin/main");
    assert_eq!(GitModule::upstream_ref(""), "refs/remotes/");
}

#[test]
fn status_from_a_full_report() {
    let report = RepoReport {
        head_name: Some("main".to_string()),
        ahead_behind: Some((2, 5)),
        entries: Some(vec![
            EntryStatus { index_new: true, ..clean() },
            EntryStatus { wt_new: true, ..clean() },
            EntryStatus { wt_modified: true, ..clean() },
        ]),
        commit_message: Some("Add the timer\r\n\r\nWith tests.".to_string()),
        commit_author: Some("Ada".to_string()),
    };
    let status = GitModule::status_from(&report);
    assert_eq!(status.branch, "main");
    assert_eq!(status.commits_ahead, 2);
    assert_eq!(status.commits_behind, 5);
    assert_eq!(status.staged, 1);
    assert_eq!(status.unstaged, 2);
    assert_eq!(status.untracked, 1);
    assert_eq!(status.last_commit_message, "Add the timer");
    assert_eq!(status.last_commit_author, "Ada");
}

#[test]
fn status_from_an_empty_report() {
    let report = RepoReport {
        head_name: None,
        ahead_behind: None,
        entries: None,
        commit_message: None,
        commit_author: None,
    };
    let status = GitModule::status_from(&report);
    assert_eq!(status.branch, "detached");
    assert_eq!(status.commits_ahead, 0);
    assert_eq!(status.commits_behind, 0);
    assert_eq!((status.staged, status.unstaged, status.untracked), (0, 0, 0));
    assert_eq!(status.last_commit_message, "");
    assert_eq!(status.last_commit_author, "");
}
