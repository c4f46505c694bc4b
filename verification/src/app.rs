//! The state of the dashboard: the latest that each provider reported, the
//! focus timer with its record of sessions, and the latest lines of the log.

use crate::config::Config;
use crate::modules::builds::BuildInfo;
use crate::modules::coverage::CoverageInfo;
use crate::modules::git::GitStatus;
use crate::modules::system::SystemStats;
use crate::modules::timer::tag_view;
use crate::modules::timer::Timer;
use crate::modules::timer::TimerView;
use crate::storage::TimerData;
use crate::storage::TimerSession;
use crate::storage::Timestamp;
use crate::storage::utc_now;
use crate::text::repo_name;
use crate::text::repo_name_of;
use vstd::prelude::*;
use vstd::string::StringExecFns;

verus! {

/// The number of lines that the log keeps.
pub const LOG_CAPACITY: usize = 10;

/// The number of tabs of the dashboard.
pub const TAB_COUNT: usize = 4;

/// The length in minutes of a focus session where the settings ask for one
/// that is too long for a timer to count.
pub const SESSION_MINUTES: u64 = 25;

/// The most minutes whose seconds a timer can count.
pub const MAX_SESSION_MINUTES: u64 = 307_445_734_561_825_860;

/// The length in minutes of the focus sessions of a dashboard whose settings
/// ask for `configured` minutes: that many, or `SESSION_MINUTES` where the
/// seconds of so many minutes do not fit in 64 bits.
pub open spec fn session_minutes_of(configured: u64) -> u64 {
    if configured * 60 <= u64::MAX {
        configured
    } else {
        SESSION_MINUTES
    }
}

/// The length in minutes of the focus sessions of a dashboard whose settings
/// ask for `configured` minutes.
pub fn session_minutes(configured: u64) -> (minutes: u64)
    ensures
        minutes == session_minutes_of(configured),
        minutes * 60 <= u64::MAX,
{
    if configured <= MAX_SESSION_MINUTES {
        configured
    } else {
        SESSION_MINUTES
    }
}

/// The log after `item` was added to `ring`: `item` comes last, and where
/// that makes more than `LOG_CAPACITY` lines, the first one leaves.
pub open spec fn ring_push<T>(ring: Seq<T>, item: T) -> Seq<T> {
    let grown = ring.push(item);
    if grown.len() > LOG_CAPACITY {
        grown.drop_first()
    } else {
        grown
    }
}

/// The log after each of `items` was added to `ring`, the first of them first.
pub open spec fn ring_fill<T>(ring: Seq<T>, items: Seq<T>) -> Seq<T>
    decreases items.len(),
{
    if items.len() == 0 {
        ring
    } else {
        ring_push(ring_fill(ring, items.drop_last()), items.last())
    }
}

/// The last `LOG_CAPACITY` of `items` in their order, or all of them where
/// there are fewer.
pub open spec fn latest<T>(items: Seq<T>) -> Seq<T> {
    if items.len() > LOG_CAPACITY {
        items.skip(items.len() - LOG_CAPACITY)
    } else {
        items
    }
}

/// The lines of a log as texts.
pub open spec fn lines(logs: Seq<String>) -> Seq<Seq<char>> {
    logs.map_values(|line: String| line@)
}

/// A log within its capacity stays within it when a line is added.
pub proof fn lemma_ring_stays_bounded<T>(ring: Seq<T>, item: T)
    requires
        ring.len() <= LOG_CAPACITY,
    ensures
        ring_push(ring, item).len() <= LOG_CAPACITY,
        ring_push(ring, item).len() == if ring.len() < LOG_CAPACITY {
            ring.len() + 1
        } else {
            LOG_CAPACITY as nat
        },
        ring_push(ring, item).last() == item,
{
}

/// Whatever is added to a log within its capacity, and however much of it,
/// the log then holds the latest lines of all that it ever held, in the
/// order in which they came, and no more than its capacity.
pub proof fn lemma_ring_keeps_the_latest<T>(ring: Seq<T>, items: Seq<T>)
    requires
        ring.len() <= LOG_CAPACITY,
    ensures
        ring_fill(ring, items) == latest(ring + items),
        ring_fill(ring, items).len() <= LOG_CAPACITY,
        ring.len() == 0 ==> ring_fill(ring, items) == latest(items),
    decreases items.len(),
{
    if items.len() == 0 {
        assert(ring + items =~= ring);
    } else {
        let front = items.drop_last();
        lemma_ring_keeps_the_latest(ring, front);
        assert((ring + front).push(items.last()) =~= ring + items);
        assert(ring_push(latest(ring + front), items.last()) =~= latest(ring + items));
    }
    if ring.len() == 0 {
        assert(ring + items =~= items);
    }
}

/// Adding a line to a log of texts is adding its text to the texts of the log.
pub proof fn lemma_lines_of_ring_push(logs: Seq<String>, line: String)
    ensures
        lines(ring_push(logs, line)) == ring_push(lines(logs), line@),
{
    assert(lines(logs.push(line)) =~= lines(logs).push(line@));
    if logs.push(line).len() > LOG_CAPACITY {
        assert(lines(logs.push(line).drop_first()) =~= lines(logs.push(line)).drop_first());
    }
}

/// What the providers reported in one round. A provider that failed, or
/// that was not asked, reported `None`.
#[derive(Debug, Clone)]
pub struct ProviderResults {
    pub system_stats: Option<SystemStats>,
    pub git_status: Option<GitStatus>,
    pub coverage: Option<CoverageInfo>,
    pub builds: Option<Vec<BuildInfo>>,
}

/// What is kept of a value when a provider reported `reported`: the report,
/// or the value as it was where there is none.
pub open spec fn merged<T>(previous: T, reported: Option<T>) -> T {
    match reported {
        Some(value) => value,
        None => previous,
    }
}

/// The state of the dashboard.
pub struct App {
    pub config: Config,
    pub git_status: GitStatus,
    /// The latest builds, the most recent first.
    pub builds: Vec<BuildInfo>,
    pub coverage: CoverageInfo,
    pub system_stats: SystemStats,
    pub timer: Timer,
    pub timer_data: TimerData,
    /// The latest lines of the log, the oldest first.
    pub logs: Vec<String>,
    pub should_quit: bool,
    pub current_tab: usize,
    pub focused_panel: usize,
    pub show_help: bool,
    pub last_git_hash: String,
}

impl App {
    /// Whether `session` is the record of a session of `timer` that
    /// completed at `now`.
    pub open spec fn session_of(timer: TimerView, now: Timestamp, session: TimerSession) -> bool {
        &&& session.start == now
        &&& session.duration_min == timer.duration / 60
        &&& tag_view(session.tag) == timer.tag
        &&& session.completed
    }

    /// The dashboard after it took in what the providers reported. Each part
    /// of the state is replaced by what its provider reported and stays as
    /// it was where the provider reported nothing. The builds stay as they
    /// were also where the settings choose no build provider.
    pub open spec fn with_results(self, results: ProviderResults) -> App {
        App {
            system_stats: merged(self.system_stats, results.system_stats),
            git_status: merged(self.git_status, results.git_status),
            coverage: merged(self.coverage, results.coverage),
            builds: if self.config.ci_source_spec() is Some {
                merged(self.builds, results.builds)
            } else {
                self.builds
            },
            ..self
        }
    }

    /// Whether `after` and `saved` are this dashboard, and the session to be
    /// saved, after a look at the timer whose open segment has lasted
    /// `segment` seconds, the time being `now`. Where the timer completes,
    /// the log says so, and a completed session that starts at `now`, with
    /// the timer's minutes and tag, stands at the end of the record and is
    /// the one to be saved. Else nothing has changed and nothing is to be
    /// saved.
    pub open spec fn settled(
        self,
        segment: nat,
        now: Timestamp,
        after: App,
        saved: Option<TimerSession>,
    ) -> bool {
        if self.timer@.completes(segment) {
            &&& saved is Some
            &&& App::session_of(self.timer@, now, saved->0)
            &&& after.timer@ == self.timer@.updated(segment)
            &&& after.timer_data.sessions@.len() == self.timer_data.sessions@.len() + 1
            &&& after.timer_data.sessions@.drop_last() == self.timer_data.sessions@
            &&& App::session_of(self.timer@, now, after.timer_data.sessions@.last())
            &&& lines(after.logs@) == ring_push(lines(self.logs@), "Timer completed!"@)
            &&& after == (App {
                timer: after.timer,
                timer_data: after.timer_data,
                logs: after.logs,
                ..self
            })
        } else {
            saved is None && after == self
        }
    }

    /// A dashboard with the settings `config` and the record `timer_data`:
    /// nothing reported yet, an idle timer of as many minutes as the
    /// settings ask for, an empty log, the first tab.
    pub fn new(config: Config, timer_data: TimerData) -> (app: App)
        ensures
            app.config == config,
            app.timer_data == timer_data,
            app.git_status.is_placeholder(),
            app.builds@.len() == 0,
            app.coverage.is_placeholder(),
            app.system_stats == SystemStats::placeholder(),
            app.timer@ == TimerView::fresh(
                session_minutes_of(config.timer_default_minutes) as nat,
            ),
            config.timer_default_minutes * 60 <= u64::MAX ==> app.timer@ == TimerView::fresh(
                config.timer_default_minutes as nat,
            ),
            app.timer@.wf(),
            app.logs@.len() == 0,
            !app.should_quit,
            app.current_tab == 0,
            app.focused_panel == 0,
            !app.show_help,
            app.last_git_hash@.len() == 0,
    {
        let timer = Timer::new(session_minutes(config.timer_default_minutes));
        App {
            config,
            git_status: GitStatus::default(),
            builds: Vec::new(),
            coverage: CoverageInfo::default(),
            system_stats: SystemStats::default(),
            timer,
            timer_data,
            logs: Vec::new(),
            should_quit: false,
            current_tab: 0,
            focused_panel: 0,
            show_help: false,
            last_git_hash: String::new(),
        }
    }

    /// The name of the project: the name of the repository at the address
    /// of its remote, where it has one; else the name of its directory; else
    /// `rust-project`.
    pub fn project_name_from(remote_url: Option<&str>, workdir_name: Option<&str>) -> (name: String)
        ensures
            name@ == match remote_url {
                Some(url) => repo_name_of(url@),
                None => match workdir_name {
                    Some(directory) => directory@,
                    None => "rust-project"@,
                },
            },
    {
        match remote_url {
            Some(url) => repo_name(url),
            None => match workdir_name {
                Some(directory) => directory.to_owned(),
                None => "rust-project".to_owned(),
            },
        }
    }

    /// Asks the dashboard to stop at the end of the present round.
    pub fn quit(&mut self)
        ensures
            *final(self) == (App { should_quit: true, ..*old(self) }),
    {
        self.should_quit = true;
    }

    /// Adds `message` to the log. Of more than `LOG_CAPACITY` lines the
    /// oldest leaves.
    pub fn add_log(&mut self, message: String)
        ensures
            final(self).logs@ == ring_push(old(self).logs@, message),
            old(self).logs@.len() <= LOG_CAPACITY ==> final(self).logs@.len() <= LOG_CAPACITY,
            *final(self) == (App { logs: final(self).logs, ..*old(self) }),
    {
        self.logs.push(message);
        if self.logs.len() > LOG_CAPACITY {
            self.logs.remove(0);
        }
    }

    /// Shows the next tab; after the last comes the first.
    pub fn next_tab(&mut self)
        ensures
            final(self).current_tab == (old(self).current_tab + 1) % (TAB_COUNT as int),
            *final(self) == (App { current_tab: final(self).current_tab, ..*old(self) }),
    {
        self.current_tab = (self.current_tab % TAB_COUNT + 1) % TAB_COUNT;
    }

    /// Takes in what the providers reported.
    pub fn apply_results(&mut self, results: ProviderResults)
        ensures
            *final(self) == old(self).with_results(results),
    {
        match results.system_stats {
            Some(stats) => {
                self.system_stats = stats;
            },
            None => {},
        }
        match results.git_status {
            Some(status) => {
                self.git_status = status;
            },
            None => {},
        }
        match results.coverage {
            Some(coverage) => {
                self.coverage = coverage;
            },
            None => {},
        }
        if self.config.ci_source().is_some() {
            match results.builds {
                Some(builds) => {
                    self.builds = builds;
                },
                None => {},
            }
        }
    }

    /// Looks at the timer, its open segment having lasted `segment_secs`
    /// seconds and the time being `now`, and hands back the session to be
    /// saved if the timer completed.
    pub fn settle_timer_after(&mut self, segment_secs: u64, now: Timestamp) -> (saved: Option<
        TimerSession,
    >)
        ensures
            old(self).settled(segment_secs as nat, now, *final(self), saved),
    {
        let completed = self.timer.update_after(segment_secs);
        if !completed {
            return None;
        }
        let message = "Timer completed!".to_owned();
        proof {
            lemma_lines_of_ring_push(self.logs@, message);
        }
        self.add_log(message);
        let duration_min = self.timer.duration_minutes();
        let session = TimerSession {
            start: now,
            duration_min,
            tag: Self::copy_of(self.timer.get_tag()),
            completed: true,
        };
        let kept = TimerSession {
            start: now,
            duration_min,
            tag: Self::copy_of(self.timer.get_tag()),
            completed: true,
        };
        self.timer_data.add_session(kept);
        assert(self.timer_data.sessions@.drop_last() =~= old(self).timer_data.sessions@);
        Some(session)
    }

    /// Looks at the timer by the clocks: the open segment is measured
    /// against the monotonic clock, and a session that completes starts at
    /// the present moment. Where the system clock gives no reading, the
    /// timer is not looked at: nothing changes, nothing is to be saved, and
    /// a timer that has run out completes in a later round.
    pub fn settle_timer(&mut self) -> (saved: Option<TimerSession>)
        ensures
            (saved is None && *final(self) == *old(self)) || exists|
                segment: u64,
                now: Timestamp,
            | #[trigger] old(self).settled(segment as nat, now, *final(self), saved),
    {
        match utc_now() {
            Some(now) => {
                let segment = self.timer.running_segment();
                self.settle_timer_after(segment, now)
            },
            None => None,
        }
    }

    /// One round of asking the providers, after they answered: takes in
    /// what they reported, then looks at the timer, its open segment having
    /// lasted `segment_secs` seconds and the time being `now`.
    pub fn refresh_after(&mut self, results: ProviderResults, segment_secs: u64, now: Timestamp) -> (saved:
        Option<TimerSession>)
        ensures
            old(self).with_results(results).settled(segment_secs as nat, now, *final(self), saved),
    {
        self.apply_results(results);
        self.settle_timer_after(segment_secs, now)
    }

    /// One round of asking the providers, after they answered: takes in
    /// what they reported, then looks at the timer by the clocks. Where the
    /// system clock gives no reading, what was reported is taken in and the
    /// timer is not looked at.
    pub fn refresh(&mut self, results: ProviderResults) -> (saved: Option<TimerSession>)
        ensures
            (saved is None && *final(self) == old(self).with_results(results)) || exists|
                segment: u64,
                now: Timestamp,
            | #[trigger]
                old(self).with_results(results).settled(segment as nat, now, *final(self), saved),
    {
        self.apply_results(results);
        self.settle_timer()
    }

    /// Writes into the log that the record of sessions could not be saved,
    /// and why.
    pub fn note_save_failure(&mut self, reason: &str)
        ensures
            lines(final(self).logs@) == ring_push(
                lines(old(self).logs@),
                "Failed to save session: "@ + reason@,
            ),
            *final(self) == (App { logs: final(self).logs, ..*old(self) }),
    {
        let mut message = "Failed to save session: ".to_owned();
        message.append(reason);
        proof {
            lemma_lines_of_ring_push(self.logs@, message);
        }
        self.add_log(message);
    }

    /// A copy of an optional text.
    fn copy_of(text: &Option<String>) -> (copy: Option<String>)
        ensures
            copy == *text,
    {
        match text {
            Some(t) => Some(t.clone()),
            None => None,
        }
    }
}

/// Settings that choose no build provider leave the builds as they were,
/// whatever was reported; and a round in which no provider reported
/// anything leaves all that the providers report as it was.
pub proof fn lemma_builds_kept(app: App, results: ProviderResults)
    ensures
        app.config.ci_source_spec() is None ==> app.with_results(results).builds == app.builds,
        results.system_stats is None && results.git_status is None && results.coverage is None
            && results.builds is None ==> app.with_results(results) == app,
{
}

} // verus!
