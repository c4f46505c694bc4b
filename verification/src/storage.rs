//! The log of focus sessions and the minutes of focus on one day.

use crate::limits::held;
use std::time::SystemTime;
use std::time::UNIX_EPOCH;
use vstd::prelude::*;

verus! {

/// A point in time: the seconds since 1970-01-01 00:00:00 UTC, leap seconds
/// not counted, and the nanoseconds into that second.
#[derive(Debug, Clone, Copy, PartialEq, Eq, Structural)]
pub struct Timestamp {
    pub secs: i64,
    pub nanos: u32,
}

/// The number of the UTC calendar day that holds second `secs`, day 0 being
/// 1970-01-01. The division rounds down, so that the last second of 1969 is
/// on day -1.
pub open spec fn day_of(secs: int) -> int {
    secs / 86_400
}

impl Timestamp {
    /// The number of the UTC calendar day of this point in time.
    pub fn day(&self) -> (day: i64)
        ensures
            day == day_of(self.secs as int),
    {
        match self.secs.checked_div_euclid(86_400) {
            Some(day) => day,
            None => 0,
        }
    }
}

/// Reads the system clock by the calls that `chrono::Utc::now` makes:
/// `SystemTime::now`, measured from `UNIX_EPOCH` by
/// `SystemTime::duration_since` and made a date by
/// `chrono::DateTime::from_timestamp`, whose reading `DateTime::timestamp`
/// and `DateTime::timestamp_subsec_nanos` give back as numbers. Where the
/// clock stands before 1970, or beyond the dates that `chrono` holds, one of
/// these calls fails and there is no reading: `Utc::now` stops the program
/// there, this gives `None`. Nothing is claimed of a reading.
#[verifier::external_body]
pub(crate) fn utc_now() -> (now: Option<Timestamp>) {
    let since = SystemTime::now().duration_since(UNIX_EPOCH).ok()?;
    let at = chrono::DateTime::from_timestamp(since.as_secs() as i64, since.subsec_nanos())?;
    Some(Timestamp { secs: at.timestamp(), nanos: at.timestamp_subsec_nanos() })
}

/// One focus session as it is kept on record.
#[derive(Debug, Clone)]
pub struct TimerSession {
    pub start: Timestamp,
    pub duration_min: u64,
    pub tag: Option<String>,
    /// True only where the timer ran to its end.
    pub completed: bool,
}

/// Whether a session counts towards the minutes of day `day`: it was
/// completed, and it started on that day.
pub open spec fn counts_on(session: TimerSession, day: int) -> bool {
    session.completed && day_of(session.start.secs as int) == day
}

/// The minutes of the sessions that count towards day `day`.
pub open spec fn minutes_on(sessions: Seq<TimerSession>, day: int) -> nat
    decreases sessions.len(),
{
    if sessions.len() == 0 {
        0
    } else {
        let earlier = minutes_on(sessions.drop_last(), day);
        if counts_on(sessions.last(), day) {
            earlier + sessions.last().duration_min as nat
        } else {
            earlier
        }
    }
}

/// The sessions on record, oldest first.
#[derive(Debug, Clone)]
pub struct TimerData {
    pub sessions: Vec<TimerSession>,
}

impl TimerData {
    /// The record that was read from storage, or an empty one where there
    /// was none or none that could be read.
    pub fn or_empty(loaded: Option<TimerData>) -> (data: TimerData)
        ensures
            loaded is Some ==> data == loaded->0,
            loaded is None ==> data.sessions@.len() == 0,
    {
        match loaded {
            Some(data) => data,
            None => TimerData::default(),
        }
    }

    /// Puts `session` at the end of the record.
    pub fn add_session(&mut self, session: TimerSession)
        ensures
            final(self).sessions@ == old(self).sessions@.push(session),
    {
        self.sessions.push(session);
    }

    /// The minutes of focus on day `day`: the sum over the completed
    /// sessions that started on it, held at the largest `u64`.
    pub fn total_on(&self, day: i64) -> (total: u64)
        ensures
            total == held(minutes_on(self.sessions@, day as int)),
    {
        let mut total: u64 = 0;
        let mut i: usize = 0;
        while i < self.sessions.len()
            invariant
                i <= self.sessions.len(),
                total == held(minutes_on(self.sessions@.take(i as int), day as int)),
            decreases self.sessions.len() - i,
        {
            let session = &self.sessions[i];
            proof {
                let next = self.sessions@.take(i + 1);
                assert(next.drop_last() =~= self.sessions@.take(i as int));
                assert(next.last() == self.sessions@[i as int]);
            }
            if session.completed && session.start.day() == day {
                total = total.saturating_add(session.duration_min);
            }
            i += 1;
        }
        assert(self.sessions@.take(i as int) =~= self.sessions@);
        total
    }

    /// The minutes of focus on the present UTC day; `None` where the system
    /// clock gives no reading, so that the day is not known.
    pub fn total_today(&self) -> (total: Option<u64>)
        ensures
            total is Some ==> exists|day: i64|
                total->0 == held(#[trigger] minutes_on(self.sessions@, day as int)),
    {
        match utc_now() {
            Some(now) => Some(self.total_on(now.day())),
            None => None,
        }
    }
}

impl Default for TimerData {
    /// A record without sessions.
    fn default() -> (data: TimerData)
        ensures
            data.sessions@.len() == 0,
    {
        TimerData { sessions: Vec::new() }
    }
}

/// A session that was not completed, or that started on another day, adds
/// nothing to the minutes of a day; any other adds its length.
pub proof fn lemma_minutes_of_one_more(sessions: Seq<TimerSession>, session: TimerSession, day: int)
    ensures
        !session.completed ==> minutes_on(sessions.push(session), day) == minutes_on(sessions, day),
        day_of(session.start.secs as int) != day ==> minutes_on(sessions.push(session), day)
            == minutes_on(sessions, day),
        counts_on(session, day) ==> minutes_on(sessions.push(session), day) == minutes_on(
            sessions,
            day,
        ) + session.duration_min,
{
    assert(sessions.push(session).drop_last() =~= sessions);
}

/// The minutes of a day over two records, one after the other, are the sum
/// of the minutes over each.
pub proof fn lemma_minutes_of_joined(earlier: Seq<TimerSession>, later: Seq<TimerSession>, day: int)
    ensures
        minutes_on(earlier + later, day) == minutes_on(earlier, day) + minutes_on(later, day),
    decreases later.len(),
{
    if later.len() == 0 {
        assert(earlier + later =~= earlier);
    } else {
        assert((earlier + later).drop_last() =~= earlier + later.drop_last());
        lemma_minutes_of_joined(earlier, later.drop_last(), day);
    }
}

/// Only what counts is counted: a record in which no session counts towards
/// a day has no minutes on it, and taking one such session out of a record,
/// wherever it stands, leaves the minutes as they were.
pub proof fn lemma_minutes_ignore_the_rest(sessions: Seq<TimerSession>, at: int, day: int)
    ensures
        (forall|i: int| 0 <= i < sessions.len() ==> !counts_on(#[trigger] sessions[i], day))
            ==> minutes_on(sessions, day) == 0,
        0 <= at < sessions.len() && !counts_on(sessions[at], day) ==> minutes_on(
            sessions.remove(at),
            day,
        ) == minutes_on(sessions, day),
    decreases sessions.len(),
{
    if sessions.len() > 0 {
        let front = sessions.drop_last();
        lemma_minutes_ignore_the_rest(front, 0, day);
        if forall|i: int| 0 <= i < sessions.len() ==> !counts_on(#[trigger] sessions[i], day) {
            assert forall|i: int| 0 <= i < front.len() implies !counts_on(
                #[trigger] front[i],
                day,
            ) by {
                assert(front[i] == sessions[i]);
            }
            assert(!counts_on(sessions[sessions.len() - 1], day));
        }
        if 0 <= at < sessions.len() && !counts_on(sessions[at], day) {
            let before = sessions.take(at);
            let one = sessions.subrange(at, at + 1);
            let after = sessions.skip(at + 1);
            assert(sessions =~= before + one + after);
            assert(sessions.remove(at) =~= before + after);
            lemma_minutes_of_joined(before, one, day);
            lemma_minutes_of_joined(before + one, after, day);
            lemma_minutes_of_joined(before, after, day);
            assert(one.drop_last() =~= Seq::<TimerSession>::empty());
            assert(one.last() == sessions[at]);
            assert(minutes_on(one, day) == 0) by {
                assert(minutes_on(one.drop_last(), day) == 0);
            }
        }
    }
}

} // verus!
