//! A focus-session timer: a four-state machine with elapsed-time accounting.
//!
//! The timer counts whole seconds. Time that has run in closed segments is
//! banked in the timer; the segment that is still open is measured against
//! the monotonic clock whenever the timer is asked. Every operation that
//! reads the clock has a twin that takes the reading as an argument, so that
//! what the timer does with a reading is stated exactly.

use crate::limits::held;
use std::time::Duration;
use std::time::Instant;
use vstd::prelude::*;

verus! {

/// `std::time::Instant`, a reading of the monotonic clock. The timer keeps
/// such readings and hands them back to the clock; it never looks into one.
#[verifier::external_type_specification]
#[verifier::external_body]
pub struct ExInstant(Instant);

/// `Instant::now` reads the monotonic clock. Nothing is claimed of the
/// reading: two calls may give any two instants.
pub assume_specification[ Instant::now ]() -> (now: Instant)
;

/// `Instant::elapsed` measures the time from `since` to the present. Nothing
/// is claimed of the span.
pub assume_specification[ Instant::elapsed ](since: &Instant) -> (span: Duration)
;

/// `Duration::as_secs` gives the whole seconds of a span. The span came from
/// the clock, so nothing is claimed of the number.
pub assume_specification[ Duration::as_secs ](span: &Duration) -> (secs: u64)
;

/// The state of a focus timer.
#[derive(Debug, Clone, Copy, PartialEq, Eq, Structural)]
pub enum TimerState {
    Idle,
    Running,
    Paused,
    Completed,
}

/// The largest number of seconds that a timer can bank.
pub open spec fn max_secs() -> nat {
    u64::MAX as nat
}

/// What a timer has banked when a segment of `segment` seconds is added to
/// `banked` seconds: their sum, held at `max_secs()`.
pub open spec fn bank(banked: nat, segment: nat) -> nat {
    held(banked + segment)
}

/// What a timer is, apart from the instant at which its open segment began.
pub struct TimerView {
    pub state: TimerState,
    /// The configured length of a session, in seconds.
    pub duration: nat,
    /// The seconds that ran in closed segments.
    pub elapsed: nat,
    pub tag: Option<Seq<char>>,
}

impl TimerView {
    /// A fresh timer of `minutes` minutes.
    pub open spec fn fresh(minutes: nat) -> TimerView {
        TimerView { state: TimerState::Idle, duration: minutes * 60, elapsed: 0, tag: None }
    }

    /// The seconds that have run when the open segment, if there is one, has
    /// lasted `segment` seconds.
    pub open spec fn total_elapsed(self, segment: nat) -> nat {
        if self.state == TimerState::Running {
            bank(self.elapsed, segment)
        } else {
            self.elapsed
        }
    }

    /// The seconds that are left: `duration - total_elapsed`, never below zero.
    pub open spec fn remaining(self, segment: nat) -> nat {
        if self.total_elapsed(segment) >= self.duration {
            0
        } else {
            (self.duration - self.total_elapsed(segment)) as nat
        }
    }

    /// The timer after `start`.
    pub open spec fn started(self) -> TimerView {
        if self.state == TimerState::Idle || self.state == TimerState::Paused {
            TimerView { state: TimerState::Running, ..self }
        } else {
            self
        }
    }

    /// The timer after `pause`, the open segment having lasted `segment` seconds.
    pub open spec fn paused(self, segment: nat) -> TimerView {
        if self.state == TimerState::Running {
            TimerView { state: TimerState::Paused, elapsed: bank(self.elapsed, segment), ..self }
        } else {
            self
        }
    }

    /// The timer after `reset`.
    pub open spec fn cleared(self) -> TimerView {
        TimerView { state: TimerState::Idle, duration: self.duration, elapsed: 0, tag: None }
    }

    /// Whether `update` finds the session complete, the open segment having
    /// lasted `segment` seconds.
    pub open spec fn completes(self, segment: nat) -> bool {
        self.state == TimerState::Running && self.total_elapsed(segment) >= self.duration
    }

    /// The timer after `update`, the open segment having lasted `segment` seconds.
    pub open spec fn updated(self, segment: nat) -> TimerView {
        if self.completes(segment) {
            TimerView { state: TimerState::Completed, elapsed: bank(self.elapsed, segment), ..self }
        } else {
            self
        }
    }

    /// The timer with the tag `tag`.
    pub open spec fn tagged(self, tag: Seq<char>) -> TimerView {
        TimerView { tag: Some(tag), ..self }
    }

    /// What holds of every timer: its session is a whole number of minutes
    /// long, the counters fit in 64 bits, an idle timer has banked nothing,
    /// and a completed one has banked the whole session at least.
    pub open spec fn wf(self) -> bool {
        &&& self.duration <= max_secs()
        &&& self.duration % 60 == 0
        &&& self.elapsed <= max_secs()
        &&& (self.state == TimerState::Idle ==> self.elapsed == 0)
        &&& (self.state == TimerState::Completed ==> self.elapsed >= self.duration)
    }
}

/// The view of an optional tag.
pub open spec fn tag_view(tag: Option<String>) -> Option<Seq<char>> {
    match tag {
        Some(t) => Some(t@),
        None => None,
    }
}

/// Where a timer stands; while it runs, since when.
#[derive(Debug, Clone, Copy)]
enum Phase {
    Idle,
    Running { since: Instant },
    Paused,
    Completed,
}

/// A focus timer. Every timer is well formed, as `TimerView::wf` says.
#[derive(Debug)]
pub struct Timer {
    phase: Phase,
    duration_seconds: u64,
    elapsed_seconds: u64,
    task_tag: Option<String>,
}

impl View for Timer {
    type V = TimerView;

    closed spec fn view(&self) -> TimerView {
        TimerView {
            state: match self.phase {
                Phase::Idle => TimerState::Idle,
                Phase::Running { .. } => TimerState::Running,
                Phase::Paused => TimerState::Paused,
                Phase::Completed => TimerState::Completed,
            },
            duration: self.duration_seconds as nat,
            elapsed: self.elapsed_seconds as nat,
            tag: tag_view(self.task_tag),
        }
    }
}

impl Clone for Timer {
    /// A timer that is the same as this one, open segment and all.
    fn clone(&self) -> (copy: Timer)
        ensures
            copy == *self,
            copy@.wf(),
    {
        proof {
            use_type_invariant(self);
        }
        let task_tag = match &self.task_tag {
            Some(tag) => Some(tag.clone()),
            None => None,
        };
        Timer {
            phase: self.phase,
            duration_seconds: self.duration_seconds,
            elapsed_seconds: self.elapsed_seconds,
            task_tag,
        }
    }
}

impl Timer {
    /// What holds of every timer.
    #[verifier::type_invariant]
    pub open spec fn well_formed(self) -> bool {
        self@.wf()
    }

    /// The instant at which the open segment began; `None` unless the timer runs.
    pub closed spec fn running_since(&self) -> Option<Instant> {
        match self.phase {
            Phase::Running { since } => Some(since),
            _ => None,
        }
    }

    /// A segment is open exactly while the timer runs, and the counters fit
    /// in 64 bits.
    pub proof fn lemma_segment_open_iff_running(&self)
        ensures
            self.running_since() is Some <==> self@.state == TimerState::Running,
            self@.duration <= max_secs(),
            self@.elapsed <= max_secs(),
    {
    }

    /// An idle timer of `duration_minutes` minutes, without a tag.
    pub fn new(duration_minutes: u64) -> (timer: Timer)
        requires
            duration_minutes * 60 <= u64::MAX,
        ensures
            timer@ == TimerView::fresh(duration_minutes as nat),
            timer@.wf(),
            timer.running_since() is None,
    {
        Timer {
            phase: Phase::Idle,
            duration_seconds: duration_minutes * 60,
            elapsed_seconds: 0,
            task_tag: None,
        }
    }

    /// Starts an idle timer, or resumes a paused one: a new segment opens at
    /// the present instant. A running or completed timer is left as it is.
    pub fn start(&mut self)
        ensures
            final(self)@ == old(self)@.started(),
            old(self)@.state == TimerState::Running || old(self)@.state == TimerState::Completed
                ==> *final(self) == *old(self),
            old(self)@.wf(),
            final(self)@.wf(),
    {
        proof {
            use_type_invariant(&*self);
        }
        match self.phase {
            Phase::Idle | Phase::Paused => {
                self.phase = Phase::Running { since: Instant::now() };
            },
            _ => {},
        }
    }

    /// Pauses a running timer whose open segment has lasted `segment_secs`
    /// seconds: the segment is banked and closed. Any other timer is left as
    /// it is.
    pub fn pause_after(&mut self, segment_secs: u64)
        ensures
            final(self)@ == old(self)@.paused(segment_secs as nat),
            old(self)@.state != TimerState::Running ==> *final(self) == *old(self),
            old(self)@.wf(),
            final(self)@.wf(),
    {
        proof {
            use_type_invariant(&*self);
        }
        match self.phase {
            Phase::Running { .. } => {
                self.elapsed_seconds = self.elapsed_seconds.saturating_add(segment_secs);
                self.phase = Phase::Paused;
            },
            _ => {},
        }
    }

    /// Pauses a running timer, measuring its open segment against the clock.
    pub fn pause(&mut self)
        ensures
            exists|segment: u64| final(self)@ == #[trigger] old(self)@.paused(segment as nat),
            old(self)@.state != TimerState::Running ==> *final(self) == *old(self),
            old(self)@.wf(),
            final(self)@.wf(),
    {
        proof {
            use_type_invariant(&*self);
        }
        match self.phase {
            Phase::Running { since } => {
                let segment = since.elapsed().as_secs();
                self.pause_after(segment);
            },
            _ => {
                assert(self@ == old(self)@.paused(0u64 as nat));
            },
        }
    }

    /// Returns the timer to idle: nothing banked, no open segment, no tag.
    pub fn reset(&mut self)
        ensures
            final(self)@ == old(self)@.cleared(),
            old(self)@.wf(),
            final(self)@.wf(),
    {
        proof {
            use_type_invariant(&*self);
        }
        *self = Timer {
            phase: Phase::Idle,
            duration_seconds: self.duration_seconds,
            elapsed_seconds: 0,
            task_tag: None,
        };
    }

    /// Completes a running timer whose open segment has lasted `segment_secs`
    /// seconds, if by then the session's length has run, and says whether it
    /// did. Any other timer is left as it is.
    pub fn update_after(&mut self, segment_secs: u64) -> (completed: bool)
        ensures
            completed == old(self)@.completes(segment_secs as nat),
            final(self)@ == old(self)@.updated(segment_secs as nat),
            !completed ==> *final(self) == *old(self),
            old(self)@.wf(),
            final(self)@.wf(),
    {
        proof {
            use_type_invariant(&*self);
        }
        match self.phase {
            Phase::Running { .. } => {
                let total = self.elapsed_seconds.saturating_add(segment_secs);
                if total >= self.duration_seconds {
                    self.elapsed_seconds = total;
                    self.phase = Phase::Completed;
                    true
                } else {
                    false
                }
            },
            _ => false,
        }
    }

    /// Completes a running timer if the session's length has run, measuring
    /// the open segment against the clock.
    pub fn update(&mut self) -> (completed: bool)
        ensures
            exists|segment: u64|
                {
                    &&& completed == #[trigger] old(self)@.completes(segment as nat)
                    &&& final(self)@ == old(self)@.updated(segment as nat)
                },
            !completed ==> *final(self) == *old(self),
            old(self)@.wf(),
            final(self)@.wf(),
    {
        proof {
            use_type_invariant(&*self);
        }
        match self.phase {
            Phase::Running { since } => {
                let segment = since.elapsed().as_secs();
                self.update_after(segment)
            },
            _ => {
                assert(!old(self)@.completes(0u64 as nat));
                false
            },
        }
    }

    /// The whole seconds that the open segment has lasted by the clock; zero
    /// where the timer does not run. Nothing is claimed of the reading.
    pub fn running_segment(&self) -> (segment_secs: u64)
        ensures
            self@.state != TimerState::Running ==> segment_secs == 0,
    {
        match self.phase {
            Phase::Running { since } => since.elapsed().as_secs(),
            _ => 0,
        }
    }

    /// The seconds that are left when the open segment, if there is one, has
    /// lasted `segment_secs` seconds.
    pub fn remaining_after(&self, segment_secs: u64) -> (left: u64)
        ensures
            left == self@.remaining(segment_secs as nat),
            left <= self@.duration,
            self@.wf(),
    {
        proof {
            use_type_invariant(self);
        }
        let total = match self.phase {
            Phase::Running { .. } => self.elapsed_seconds.saturating_add(segment_secs),
            _ => self.elapsed_seconds,
        };
        if total >= self.duration_seconds {
            0
        } else {
            self.duration_seconds - total
        }
    }

    /// The seconds that are left, measuring the open segment against the clock.
    pub fn remaining_seconds(&self) -> (left: u64)
        ensures
            exists|segment: u64| left == #[trigger] self@.remaining(segment as nat),
            self@.state != TimerState::Running ==> left == self@.remaining(0),
            left <= self@.duration,
            self@.wf(),
    {
        proof {
            use_type_invariant(self);
        }
        match self.phase {
            Phase::Running { since } => {
                let segment = since.elapsed().as_secs();
                self.remaining_after(segment)
            },
            _ => {
                let left = self.remaining_after(0);
                assert(left == self@.remaining(0u64 as nat));
                left
            },
        }
    }

    /// The state of the timer.
    pub fn state(&self) -> (state: TimerState)
        ensures
            state == self@.state,
            self@.wf(),
    {
        proof {
            use_type_invariant(self);
        }
        match self.phase {
            Phase::Idle => TimerState::Idle,
            Phase::Running { .. } => TimerState::Running,
            Phase::Paused => TimerState::Paused,
            Phase::Completed => TimerState::Completed,
        }
    }

    /// Labels the session. The clock is not touched.
    pub fn set_tag(&mut self, tag: String)
        ensures
            final(self)@ == old(self)@.tagged(tag@),
            final(self).running_since() == old(self).running_since(),
            old(self)@.wf(),
            final(self)@.wf(),
    {
        proof {
            use_type_invariant(&*self);
        }
        self.task_tag = Some(tag);
    }

    /// The label of the session, if it has one.
    pub fn get_tag(&self) -> (tag: &Option<String>)
        ensures
            tag_view(*tag) == self@.tag,
            self@.wf(),
    {
        proof {
            use_type_invariant(self);
        }
        &self.task_tag
    }

    /// The configured length of a session in whole minutes.
    pub fn duration_minutes(&self) -> (minutes: u64)
        ensures
            minutes == self@.duration / 60,
            minutes * 60 == self@.duration,
            self@.wf(),
    {
        proof {
            use_type_invariant(self);
        }
        self.duration_seconds / 60
    }
}

/// A call that changes a timer, with the length of the open segment at the
/// moment of the call where the call reads the clock.
pub enum TimerCommand {
    Start,
    Pause { segment: nat },
    Reset,
    Update { segment: nat },
}

/// The state that a call of `start`, `pause` or `reset` leads to. `update`
/// is not in the table: what it does depends on the time that has run.
pub open spec fn next_state(state: TimerState, command: TimerCommand) -> TimerState {
    match command {
        TimerCommand::Start => match state {
            TimerState::Idle => TimerState::Running,
            TimerState::Running => TimerState::Running,
            TimerState::Paused => TimerState::Running,
            TimerState::Completed => TimerState::Completed,
        },
        TimerCommand::Pause { .. } => match state {
            TimerState::Idle => TimerState::Idle,
            TimerState::Running => TimerState::Paused,
            TimerState::Paused => TimerState::Paused,
            TimerState::Completed => TimerState::Completed,
        },
        TimerCommand::Reset => TimerState::Idle,
        TimerCommand::Update { .. } => state,
    }
}

/// The state that a sequence of calls leads to by the table alone.
pub open spec fn table_run(state: TimerState, commands: Seq<TimerCommand>) -> TimerState
    decreases commands.len(),
{
    if commands.len() == 0 {
        state
    } else {
        next_state(table_run(state, commands.drop_last()), commands.last())
    }
}

impl TimerView {
    /// The timer after one call.
    pub open spec fn apply(self, command: TimerCommand) -> TimerView {
        match command {
            TimerCommand::Start => self.started(),
            TimerCommand::Pause { segment } => self.paused(segment),
            TimerCommand::Reset => self.cleared(),
            TimerCommand::Update { segment } => self.updated(segment),
        }
    }

    /// The timer after a sequence of calls, the first of them first.
    pub open spec fn run(self, commands: Seq<TimerCommand>) -> TimerView
        decreases commands.len(),
    {
        if commands.len() == 0 {
            self
        } else {
            self.run(commands.drop_last()).apply(commands.last())
        }
    }
}

/// A fresh timer is well formed, and every call keeps a timer so.
pub proof fn lemma_wf_is_kept(timer: TimerView, minutes: nat, command: TimerCommand)
    ensures
        minutes * 60 <= max_secs() ==> TimerView::fresh(minutes).wf(),
        timer.wf() ==> timer.apply(command).wf(),
{
}

/// Whatever the sequence of `start`, `pause` and `reset` calls, the state
/// moves as the table says and the session's length stays what it was.
pub proof fn lemma_calls_follow_the_table(timer: TimerView, commands: Seq<TimerCommand>)
    requires
        forall|i: int| 0 <= i < commands.len() ==> !(#[trigger] commands[i] is Update),
    ensures
        timer.run(commands).state == table_run(timer.state, commands),
        timer.run(commands).duration == timer.duration,
    decreases commands.len(),
{
    if commands.len() > 0 {
        let front = commands.drop_last();
        assert forall|i: int| 0 <= i < front.len() implies !(#[trigger] front[i] is Update) by {
            assert(front[i] == commands[i]);
        }
        lemma_calls_follow_the_table(timer, front);
        assert(!(commands[commands.len() - 1] is Update));
    }
}

/// A call in a state that it is not meant for changes nothing: `start` on a
/// running or completed timer, `pause` and `update` on a timer that does not
/// run.
pub proof fn lemma_inapplicable_calls_change_nothing(timer: TimerView, segment: nat)
    ensures
        timer.state == TimerState::Running || timer.state == TimerState::Completed
            ==> timer.started() == timer,
        timer.state != TimerState::Running ==> timer.paused(segment) == timer,
        timer.state != TimerState::Running ==> timer.updated(segment) == timer && !timer.completes(
            segment,
        ),
{
}

/// The time left never exceeds the session's length. On a well-formed
/// timer that is idle the whole session is left, and on one that has
/// completed nothing is.
pub proof fn lemma_remaining_within_duration(timer: TimerView, segment: nat)
    ensures
        timer.remaining(segment) <= timer.duration,
        timer.wf() && timer.state == TimerState::Idle ==> timer.remaining(segment)
            == timer.duration,
        timer.wf() && timer.state == TimerState::Completed ==> timer.remaining(segment) == 0,
{
}

/// While the timer runs and time is left, a longer open segment leaves less.
pub proof fn lemma_remaining_decreases_while_running(timer: TimerView, earlier: nat, later: nat)
    requires
        timer.duration <= max_secs(),
        timer.state == TimerState::Running,
        earlier < later,
        timer.remaining(earlier) > 0,
    ensures
        timer.remaining(later) < timer.remaining(earlier),
{
}

/// While the timer does not run, the clock has no say in the time left, and
/// neither `pause` nor `update` changes it.
pub proof fn lemma_remaining_frozen_unless_running(timer: TimerView, earlier: nat, later: nat)
    requires
        timer.state != TimerState::Running,
    ensures
        timer.remaining(later) == timer.remaining(earlier),
        timer.paused(earlier).remaining(later) == timer.remaining(earlier),
        timer.updated(earlier).remaining(later) == timer.remaining(earlier),
{
}

/// After `reset` the whole session is left, and so it is on a fresh timer.
pub proof fn lemma_remaining_full_after_reset(timer: TimerView, minutes: nat, segment: nat)
    ensures
        timer.cleared().remaining(segment) == timer.duration,
        TimerView::fresh(minutes).remaining(segment) == minutes * 60,
{
}

/// An `update` that reports completion leaves a completed timer with no
/// time left, and the `update` after it reports nothing and changes nothing.
pub proof fn lemma_update_reports_once(timer: TimerView, segment: nat, later: nat)
    requires
        timer.completes(segment),
    ensures
        timer.updated(segment).state == TimerState::Completed,
        timer.updated(segment).remaining(later) == 0,
        !timer.updated(segment).completes(later),
        timer.updated(segment).updated(later) == timer.updated(segment),
{
}

/// Once a timer has completed, no sequence of calls without a `reset`
/// changes it, and no `update` among them or after them reports completion.
pub proof fn lemma_completed_until_reset(timer: TimerView, commands: Seq<TimerCommand>)
    requires
        timer.state == TimerState::Completed,
        forall|i: int| 0 <= i < commands.len() ==> !(#[trigger] commands[i] is Reset),
    ensures
        timer.run(commands) == timer,
        forall|k: int, segment: nat|
            0 <= k <= commands.len() ==> !(#[trigger] timer.run(commands.take(k)).completes(
                segment,
            )),
    decreases commands.len(),
{
    if commands.len() > 0 {
        let front = commands.drop_last();
        assert forall|i: int| 0 <= i < front.len() implies !(#[trigger] front[i] is Reset) by {
            assert(front[i] == commands[i]);
        }
        lemma_completed_until_reset(timer, front);
        assert(!(commands[commands.len() - 1] is Reset));
        assert forall|k: int, segment: nat| 0 <= k <= commands.len() implies !(
        #[trigger] timer.run(commands.take(k)).completes(segment)) by {
            if k < commands.len() {
                assert(commands.take(k) =~= front.take(k));
            } else {
                assert(commands.take(k) =~= commands);
            }
        }
    } else {
        assert forall|k: int, segment: nat| 0 <= k <= commands.len() implies !(
        #[trigger] timer.run(commands.take(k)).completes(segment)) by {
            assert(commands.take(k) =~= commands);
        }
    }
}

/// The banked time changes only where a call takes the timer out of the
/// running state, or resets it; and a timer completes only out of the
/// running state, by an `update` that finds the session's length run.
pub proof fn lemma_changes_only_on_leaving_running(timer: TimerView, command: TimerCommand)
    ensures
        timer.apply(command).elapsed != timer.elapsed ==> command is Reset || (timer.state
            == TimerState::Running && timer.apply(command).state != TimerState::Running),
        timer.apply(command).state == TimerState::Completed && timer.state
            != TimerState::Completed ==> timer.state == TimerState::Running && command is Update
            && timer.total_elapsed(command->Update_segment) >= timer.duration,
        timer.apply(command).duration == timer.duration,
        !(command is Reset) ==> timer.apply(command).tag == timer.tag,
{
}

/// After `reset` a timer completes again only when it has been started and
/// the whole session has run anew.
pub proof fn lemma_full_run_after_reset(timer: TimerView, segment: nat)
    ensures
        !timer.cleared().completes(segment),
        timer.cleared().started().completes(segment) <==> bank(0, segment) >= timer.duration,
{
}

} // verus!
