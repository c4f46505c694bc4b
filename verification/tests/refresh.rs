use devdash::app::App;
use devdash::app::session_minutes;
use devdash::app::ProviderResults;
use devdash::app::MAX_SESSION_MINUTES;
use devdash::app::SESSION_MINUTES;
use devdash::app::TAB_COUNT;
use devdash::config::Config;
use devdash::modules::builds::BuildInfo;
use devdash::modules::builds::BuildStatus;
use devdash::modules::coverage::CoverageInfo;
use devdash::modules::coverage::FileCoverage;
use devdash::modules::git::GitStatus;
use devdash::modules::system::SystemStats;
use devdash::modules::timer::Timer;
use devdash::modules::timer::TimerState;
use devdash::storage::TimerData;
use devdash::storage::Timestamp;

fn fresh() -> App {
    App::new(Config::default(), TimerData::default())
}

fn with_github() -> App {
    let mut config = Config::default();
    config.github_repo = Some("owner/repo".to_string());
    config.github_token = Some("abc123".to_string());
    App::new(config, TimerData::default())
}

fn build(name: &str) -> BuildInfo {
    BuildInfo {
        status: BuildStatus::Success,
        name: name.to_string(),
        timestamp: String::new(),
        commit_sha: String::new(),
        message: String::new(),
    }
}

fn nothing() -> ProviderResults {
    ProviderResults { system_stats: None, git_status: None, coverage: None, builds: None }
}

fn stats() -> SystemStats {
    SystemStats {
        cpu_usage_bits: 12.5f32.to_bits(),
        ram_used: 4,
        ram_total: 8,
        disk_used: 1,
        disk_total: 2,
        uptime: 3_700,
    }
}

#[test]
fn new_dashboard_holds_placeholders() {
    let app = fresh();
    assert_eq!(app.git_status.branch, "unknown");
    assert_eq!(app.git_status.commits_ahead, 0);
    assert_eq!(app.git_status.last_commit_message, "");
    assert_eq!(app.builds.len(), 0);
    assert_eq!(app.coverage.total_segments, 0);
    assert_eq!(app.coverage.covered_segments, 0);
    assert_eq!(app.coverage.files.len(), 0);
    assert_eq!(app.system_stats, SystemStats::default());
    assert_eq!(app.system_stats.ram_total, 1);
    assert_eq!(app.system_stats.disk_total, 1);
    assert_eq!(f32::from_bits(app.system_stats.cpu_usage_bits), 0.0);
    assert_eq!(app.timer.state(), TimerState::Idle);
    assert_eq!(app.timer.duration_minutes(), 25);
    assert_eq!(SESSION_MINUTES, 25);
    assert_eq!(app.logs.len(), 0);
    assert!(!app.should_quit);
    assert_eq!(app.current_tab, 0);
    assert_eq!(app.focused_panel, 0);
    assert!(!app.show_help);
    assert_eq!(app.last_git_hash, "");
    assert_eq!(app.timer_data.sessions.len(), 0);
}

#[test]
fn new_dashboard_takes_the_configured_minutes() {
    let mut config = Config::default();
    config.timer_default_minutes = 50;
    let app = App::new(config, TimerData::default());
    assert_eq!(app.timer.state(), TimerState::Idle);
    assert_eq!(app.timer.duration_minutes(), 50);
    assert_eq!(app.timer.remaining_seconds(), 3_000);
    assert_eq!(app.config.timer_default_minutes, 50);
    assert_eq!(app.builds.len(), 0);
    assert_eq!(app.logs.len(), 0);
    assert!(!app.should_quit);
    assert_eq!(app.current_tab, 0);
}

#[test]
fn new_dashboard_with_one_or_no_minute_configured() {
    let mut config = Config::default();
    config.timer_default_minutes = 1;
    assert_eq!(App::new(config, TimerData::default()).timer.remaining_seconds(), 60);
    let mut none = Config::default();
    none.timer_default_minutes = 0;
    let app = App::new(none, TimerData::default());
    assert_eq!(app.timer.duration_minutes(), 0);
    assert_eq!(app.timer.remaining_seconds(), 0);
}

#[test]
fn new_dashboard_takes_the_most_minutes_that_a_timer_counts() {
    assert_eq!(MAX_SESSION_MINUTES, u64::MAX / 60);
    let mut config = Config::default();
    config.timer_default_minutes = MAX_SESSION_MINUTES;
    let app = App::new(config, TimerData::default());
    assert_eq!(app.timer.duration_minutes(), MAX_SESSION_MINUTES);
    assert_eq!(app.timer.remaining_seconds(), MAX_SESSION_MINUTES * 60);
}

#[test]
fn new_dashboard_falls_back_where_the_minutes_cannot_be_counted() {
    for minutes in [MAX_SESSION_MINUTES + 1, u64::MAX / 2, u64::MAX] {
        let mut config = Config::default();
        config.timer_default_minutes = minutes;
        let app = App::new(config, TimerData::default());
        assert_eq!(app.timer.duration_minutes(), 25);
        assert_eq!(app.timer.state(), TimerState::Idle);
        assert_eq!(app.config.timer_default_minutes, minutes);
    }
}

#[test]
fn session_minutes_of_a_setting() {
    assert_eq!(session_minutes(25), 25);
    assert_eq!(session_minutes(0), 0);
    assert_eq!(session_minutes(90), 90);
    assert_eq!(session_minutes(MAX_SESSION_MINUTES), MAX_SESSION_MINUTES);
    assert_eq!(session_minutes(MAX_SESSION_MINUTES + 1), SESSION_MINUTES);
    assert_eq!(session_minutes(u64::MAX), 25);
}

#[test]
fn new_dashboard_keeps_the_record_handed_in() {
    let mut data = TimerData::default();
    data.add_session(devdash::storage::TimerSession {
        start: Timestamp { secs: 9, nanos: 1 },
        duration_min: 25,
        tag: Some("kept".to_string()),
        completed: true,
    });
    let app = App::new(Config::default(), data);
    assert_eq!(app.timer_data.sessions.len(), 1);
    assert_eq!(app.timer_data.sessions[0].start, Timestamp { secs: 9, nanos: 1 });
    assert_eq!(app.timer_data.sessions[0].tag.as_deref(), Some("kept"));
}

#[test]
fn no_credentials_leave_the_builds_untouched() {
    let mut app = fresh();
    let mut results = nothing();
    results.builds = Some(vec![build("stray")]);
    let saved = app.refresh_after(results, 0, Timestamp { secs: 0, nanos: 0 });
    assert!(saved.is_none());
    assert_eq!(app.builds.len(), 0);
    assert_eq!(app.logs.len(), 0);

    app.builds = vec![build("earlier")];
    app.apply_results(nothing());
    assert_eq!(app.builds.len(), 1);
    assert_eq!(app.builds[0].name, "earlier");
    let mut again = nothing();
    again.builds = Some(Vec::new());
    app.apply_results(again);
    assert_eq!(app.builds.len(), 1);
    assert_eq!(app.builds[0].name, "earlier");
}

#[test]
fn reported_builds_replace_the_old_ones() {
    let mut app = with_github();
    app.builds = vec![build("earlier")];
    let mut results = nothing();
    results.builds = Some(vec![build("first"), build("second")]);
    app.apply_results(results);
    assert_eq!(app.builds.len(), 2);
    assert_eq!(app.builds[0].name, "first");
    assert_eq!(app.builds[1].name, "second");
}

#[test]
fn a_failed_provider_keeps_the_previous_value() {
    let mut app = with_github();
    let mut first = nothing();
    first.system_stats = Some(stats());
    let mut git = GitStatus::default();
    git.branch = "main".to_string();
    git.staged = 3;
    first.git_status = Some(git);
    first.coverage = Some(CoverageInfo {
        covered_segments: 3,
        total_segments: 4,
        files: vec![FileCoverage { name: "lib.rs".to_string() }],
    });
    first.builds = Some(vec![build("first")]);
    app.apply_results(first);
    assert_eq!(app.system_stats, stats());
    assert_eq!(app.git_status.branch, "main");
    assert_eq!(app.coverage.total_segments, 4);
    assert_eq!(app.builds.len(), 1);

    app.apply_results(nothing());
    assert_eq!(app.system_stats, stats());
    assert_eq!(app.git_status.branch, "main");
    assert_eq!(app.git_status.staged, 3);
    assert_eq!(app.coverage.covered_segments, 3);
    assert_eq!(app.coverage.files[0].name, "lib.rs");
    assert_eq!(app.builds[0].name, "first");
}

#[test]
fn each_provider_is_merged_by_itself() {
    let mut app = with_github();
    let mut only_stats = nothing();
    only_stats.system_stats = Some(stats());
    app.apply_results(only_stats);
    assert_eq!(app.system_stats.uptime, 3_700);
    assert_eq!(app.git_status.branch, "unknown");
    assert_eq!(app.builds.len(), 0);

    let mut only_git = nothing();
    let mut git = GitStatus::default();
    git.branch = "dev".to_string();
    only_git.git_status = Some(git);
    app.apply_results(only_git);
    assert_eq!(app.system_stats.uptime, 3_700);
    assert_eq!(app.git_status.branch, "dev");
}

#[test]
fn apply_results_leaves_the_rest_alone() {
    let mut app = with_github();
    app.add_log("kept".to_string());
    app.current_tab = 2;
    app.timer.start();
    let mut results = nothing();
    results.system_stats = Some(stats());
    app.apply_results(results);
    assert_eq!(app.logs, vec!["kept".to_string()]);
    assert_eq!(app.current_tab, 2);
    assert_eq!(app.timer.state(), TimerState::Running);
    assert!(!app.should_quit);
}

#[test]
fn a_completed_timer_is_logged_and_recorded() {
    let mut app = fresh();
    app.timer.set_tag("deep work".to_string());
    app.timer.start();
    let now = Timestamp { secs: 1_710_028_800, nanos: 42 };
    let saved = app.settle_timer_after(1_500, now);
    let session = saved.expect("the timer completed");
    assert_eq!(session.start, now);
    assert_eq!(session.duration_min, 25);
    assert_eq!(session.tag.as_deref(), Some("deep work"));
    assert!(session.completed);
    assert_eq!(app.timer.state(), TimerState::Completed);
    assert_eq!(app.logs, vec!["Timer completed!".to_string()]);
    assert_eq!(app.timer_data.sessions.len(), 1);
    assert_eq!(app.timer_data.sessions[0].start, now);
    assert_eq!(app.timer_data.sessions[0].duration_min, 25);
    assert_eq!(app.timer_data.sessions[0].tag.as_deref(), Some("deep work"));
    assert!(app.timer_data.sessions[0].completed);
    assert_eq!(app.timer_data.total_on(now.day()), 25);
}

#[test]
fn completion_is_recorded_once() {
    let mut app = fresh();
    app.timer.start();
    let now = Timestamp { secs: 100, nanos: 0 };
    assert!(app.settle_timer_after(1_499, now).is_none());
    assert_eq!(app.logs.len(), 0);
    assert!(app.settle_timer_after(1_500, now).is_some());
    assert!(app.settle_timer_after(1_500, now).is_none());
    assert!(app.settle_timer_after(9_000, now).is_none());
    assert!(app.settle_timer().is_none());
    assert_eq!(app.timer_data.sessions.len(), 1);
    assert_eq!(app.logs.len(), 1);
}

#[test]
fn an_idle_or_paused_timer_settles_to_nothing() {
    let mut app = fresh();
    let now = Timestamp { secs: 100, nanos: 0 };
    assert!(app.settle_timer_after(9_000, now).is_none());
    app.timer.start();
    app.timer.pause_after(9_000);
    assert!(app.settle_timer_after(9_000, now).is_none());
    assert_eq!(app.timer.state(), TimerState::Paused);
    assert_eq!(app.timer_data.sessions.len(), 0);
    assert_eq!(app.logs.len(), 0);
}

#[test]
fn refresh_merges_before_it_settles() {
    let mut app = with_github();
    app.timer.start();
    let mut results = nothing();
    results.builds = Some(vec![build("first")]);
    results.system_stats = Some(stats());
    let now = Timestamp { secs: 86_400 * 3 + 5, nanos: 0 };
    let saved = app.refresh_after(results, 2_000, now);
    assert!(saved.is_some());
    assert_eq!(app.builds.len(), 1);
    assert_eq!(app.system_stats, stats());
    assert_eq!(app.logs, vec!["Timer completed!".to_string()]);
    assert_eq!(app.timer_data.total_on(3), 25);
}

#[test]
fn refresh_by_the_clocks_records_the_present_moment() {
    let mut app = fresh();
    app.timer = Timer::new(0);
    app.timer.start();
    let before = chrono::Utc::now().timestamp();
    let saved = app.refresh(nothing());
    let after = chrono::Utc::now().timestamp();
    let session = saved.expect("a timer of no length completes at once");
    assert!(before <= session.start.secs && session.start.secs <= after);
    assert!(session.start.nanos < 2_000_000_000);
    assert_eq!(session.duration_min, 0);
    assert!(session.completed);
    assert_eq!(app.timer_data.sessions.len(), 1);
    assert_eq!(app.timer_data.sessions[0].start, session.start);
    assert_eq!(app.logs, vec!["Timer completed!".to_string()]);
    assert!(app.refresh(nothing()).is_none());
}

#[test]
fn refresh_by_the_clocks_leaves_a_young_timer_running() {
    let mut app = fresh();
    app.timer.start();
    assert!(app.refresh(nothing()).is_none());
    assert!(app.settle_timer().is_none());
    assert_eq!(app.timer.state(), TimerState::Running);
    assert_eq!(app.logs.len(), 0);
}

#[test]
fn a_failed_save_is_logged() {
    let mut app = fresh();
    app.note_save_failure("disk full");
    assert_eq!(app.logs, vec!["Failed to save session: disk full".to_string()]);
    app.note_save_failure("");
    assert_eq!(app.logs[1], "Failed to save session: ");
    assert_eq!(app.timer_data.sessions.len(), 0);
}

#[test]
fn a_failed_save_keeps_the_session_in_memory() {
    let mut app = fresh();
    app.timer.start();
    let saved = app.settle_timer_after(1_500, Timestamp { secs: 7, nanos: 0 });
    assert!(saved.is_some());
    app.note_save_failure("read-only file system");
    assert_eq!(app.timer_data.sessions.len(), 1);
    assert_eq!(
        app.logs,
        vec![
            "Timer completed!".to_string(),
            "Failed to save session: read-only file system".to_string()
        ]
    );
}

#[test]
fn quit_sets_the_flag() {
    let mut app = fresh();
    app.quit();
    assert!(app.should_quit);
    app.quit();
    assert!(app.should_quit);
    assert_eq!(app.current_tab, 0);
}

#[test]
fn tabs_cycle_through_four() {
    assert_eq!(TAB_COUNT, 4);
    let mut app = fresh();
    let mut seen = Vec::new();
    for _ in 0..5 {
        app.next_tab();
        seen.push(app.current_tab);
    }
    assert_eq!(seen, vec![1, 2, 3, 0, 1]);
    app.current_tab = usize::MAX;
    app.next_tab();
    assert_eq!(app.current_tab, 0);
    app.current_tab = 6;
    app.next_tab();
    assert_eq!(app.current_tab, 3);
}

#[test]
fn project_name_prefers_the_remote() {
    assert_eq!(
        App::project_name_from(Some("https://github.com/owner/devdash.git"), Some("checkout")),
        "devdash"
    );
    assert_eq!(App::project_name_from(Some("https://example.org/x/"), Some("checkout")), "");
    assert_eq!(App::project_name_from(None, Some("checkout")), "checkout");
    assert_eq!(App::project_name_from(None, None), "rust-project");
}
