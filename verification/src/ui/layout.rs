//! The texts and numbers of the panels, as far as they are computed
//! without drawing.

use crate::app::ring_push;
use crate::app::LOG_CAPACITY;
use crate::app::App;
use crate::modules::builds::BuildStatus;
use crate::modules::timer::TimerState;
use crate::text::fitting;
use crate::text::fitting_of;
use crate::text::lemma_encode_joined;
use crate::text::lemma_fitting_of;
use vstd::prelude::*;
use vstd::string::StringExecFns;
use vstd::utf8::encode_utf8;
use vstd::utf8::is_ascii_chars_encode_utf8;

verus! {

/// Adds `message` to the log of `app`.
pub fn add_log(app: &mut App, message: String)
    ensures
        final(app).logs@ == ring_push(old(app).logs@, message),
        old(app).logs@.len() <= LOG_CAPACITY ==> final(app).logs@.len() <= LOG_CAPACITY,
        *final(app) == (App { logs: final(app).logs, ..*old(app) }),
{
    app.add_log(message);
}

/// The mark that the builds panel shows for a build.
pub open spec fn indicator_of(status: BuildStatus) -> Seq<char> {
    match status {
        BuildStatus::Success => "[OK]"@,
        BuildStatus::Failure => "[FAIL]"@,
        BuildStatus::Running => "[RUN]"@,
        BuildStatus::Unknown => "[?]"@,
    }
}

/// The mark that the builds panel shows for a build.
pub fn status_indicator(status: BuildStatus) -> (mark: &'static str)
    ensures
        mark@ == indicator_of(status),
{
    match status {
        BuildStatus::Success => "[OK]",
        BuildStatus::Failure => "[FAIL]",
        BuildStatus::Running => "[RUN]",
        BuildStatus::Unknown => "[?]",
    }
}

/// The word that the timer panel shows for the timer's state.
pub open spec fn state_word(state: TimerState) -> Seq<char> {
    match state {
        TimerState::Idle => "Idle"@,
        TimerState::Running => "Running"@,
        TimerState::Paused => "Paused"@,
        TimerState::Completed => "Completed"@,
    }
}

/// The word that the timer panel shows for the timer's state.
pub fn state_text(state: TimerState) -> (word: &'static str)
    ensures
        word@ == state_word(state),
{
    match state {
        TimerState::Idle => "Idle",
        TimerState::Running => "Running",
        TimerState::Paused => "Paused",
        TimerState::Completed => "Completed",
    }
}

/// The bytes that the repository panel has room for of a commit's first
/// line, as UTF-8.
pub const COMMIT_ROOM: usize = 40;

/// The bytes that are kept at most of a first line that is longer than
/// `COMMIT_ROOM`, before the dots that stand for the rest.
pub const COMMIT_KEPT: usize = 37;

/// The bytes that the builds panel shows at most of a build's time.
pub const TIME_ROOM: usize = 19;

/// What the repository panel shows of the first line of the last commit:
/// `No commits` where it is empty; of a line of more than `COMMIT_ROOM`
/// bytes its whole characters as far as they fit in `COMMIT_KEPT` bytes,
/// and three dots; else the line.
pub open spec fn shown_commit_of(message: Seq<char>) -> Seq<char> {
    if message.len() == 0 {
        "No commits"@
    } else if encode_utf8(message).len() > COMMIT_ROOM {
        fitting_of(message, COMMIT_KEPT as nat) + "..."@
    } else {
        message
    }
}

/// What the builds panel shows of a build's time: `now` where there is
/// none, else its whole characters as far as they fit in `TIME_ROOM` bytes.
pub open spec fn shown_time_of(timestamp: Seq<char>) -> Seq<char> {
    if timestamp.len() == 0 {
        "now"@
    } else {
        fitting_of(timestamp, TIME_ROOM as nat)
    }
}

/// What the repository panel shows of the first line of the last commit.
pub fn shown_commit(message: &str) -> (shown: String)
    ensures
        shown@ == shown_commit_of(message@),
        encode_utf8(shown@).len() <= COMMIT_ROOM,
{
    proof {
        lemma_shown_texts_fit(message@);
    }
    if message.is_empty() {
        "No commits".to_owned()
    } else if message.as_bytes().len() > COMMIT_ROOM {
        let mut shown = fitting(message, COMMIT_KEPT).to_owned();
        shown.append("...");
        shown
    } else {
        message.to_owned()
    }
}

/// What the builds panel shows of a build's time.
pub fn shown_time(timestamp: &str) -> (shown: String)
    ensures
        shown@ == shown_time_of(timestamp@),
        encode_utf8(shown@).len() <= TIME_ROOM,
{
    proof {
        lemma_shown_texts_fit(timestamp@);
    }
    if timestamp.is_empty() {
        "now".to_owned()
    } else {
        fitting(timestamp, TIME_ROOM).to_owned()
    }
}

/// What the panels show of a commit's first line and of a build's time is
/// within their room, whatever the text; a text that is within the room is
/// shown whole, and of a longer one a beginning is shown.
pub proof fn lemma_shown_texts_fit(text: Seq<char>)
    ensures
        encode_utf8(shown_commit_of(text)).len() <= COMMIT_ROOM,
        encode_utf8(shown_time_of(text)).len() <= TIME_ROOM,
        0 < encode_utf8(text).len() <= COMMIT_ROOM ==> shown_commit_of(text) == text,
        0 < text.len() && encode_utf8(text).len() <= TIME_ROOM ==> shown_time_of(text) == text,
        encode_utf8(text).len() > COMMIT_ROOM ==> {
            let kept = fitting_of(text, COMMIT_KEPT as nat);
            &&& shown_commit_of(text) == kept + "..."@
            &&& kept == text.take(kept.len() as int)
            &&& encode_utf8(kept).len() <= COMMIT_KEPT
        },
        encode_utf8(text).len() > TIME_ROOM ==> {
            let kept = shown_time_of(text);
            &&& kept == text.take(kept.len() as int)
            &&& encode_utf8(kept).len() <= TIME_ROOM
        },
{
    reveal_strlit("No commits");
    reveal_strlit("...");
    reveal_strlit("now");
    is_ascii_chars_encode_utf8("No commits"@);
    is_ascii_chars_encode_utf8("..."@);
    is_ascii_chars_encode_utf8("now"@);
    lemma_fitting_of(text, COMMIT_KEPT as nat);
    lemma_fitting_of(text, TIME_ROOM as nat);
    lemma_encode_joined(fitting_of(text, COMMIT_KEPT as nat), "..."@);
    if text.len() > 0 {
        assert(encode_utf8(text).len() > 0) by {
            assert(encode_utf8(text) == vstd::utf8::encode_scalar(text[0] as u32) + encode_utf8(
                text.drop_first(),
            ));
        }
    }
}

/// The minutes and seconds that the timer panel shows when `remaining`
/// seconds are left.
pub fn clock_face(remaining: u64) -> (face: (u64, u64))
    ensures
        face.0 == remaining / 60,
        face.1 == remaining % 60,
        face.0 * 60 + face.1 == remaining,
        face.1 < 60,
{
    (remaining / 60, remaining % 60)
}

} // verus!
