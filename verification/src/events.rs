//! What a key press does to the dashboard, and when the dashboard asks its
//! providers again.

use crate::app::lemma_lines_of_ring_push;
use crate::app::lines;
use crate::app::ring_push;
use crate::app::App;
use crate::modules::timer::TimerState;
use crate::modules::timer::TimerView;
use crate::ui::themes::ThemeManager;
use vstd::prelude::*;

verus! {

/// The seconds after which the providers are asked again.
pub const REFRESH_SECS: u64 = 2;

/// The longest that one round waits for a key, in milliseconds.
pub const POLL_MILLIS: u64 = 100;

/// The key of a key event, as far as the dashboard tells keys apart.
#[derive(Debug, Clone, Copy, PartialEq, Eq, Structural)]
pub enum KeyCode {
    Char(char),
    Esc,
    Tab,
    Other,
}

/// A key event: the key, whether the control key was held with it, and
/// whether the key went down (and not up, nor repeated).
#[derive(Debug, Clone, Copy, PartialEq, Eq, Structural)]
pub struct KeyPress {
    pub code: KeyCode,
    pub control: bool,
    pub pressed: bool,
}

/// What the user can ask of the dashboard.
#[derive(Debug, Clone, Copy, PartialEq, Eq, Structural)]
pub enum Command {
    /// Leave at once.
    Quit,
    /// Leave at the end of the round.
    Escape,
    NextTab,
    Refresh,
    ToggleTimer,
    CycleTheme,
}

/// What is left to do, after a command, that the dashboard's state cannot
/// do by itself.
#[derive(Debug, Clone, Copy, PartialEq, Eq, Structural)]
pub enum Effect {
    /// Nothing: go on with the round.
    Continue,
    /// Leave the loop now.
    Exit,
    /// Ask the providers now.
    Refresh,
}

/// What the one key of the timer does to it.
#[derive(Debug, Clone, Copy, PartialEq, Eq, Structural)]
pub enum TimerAction {
    Start,
    Pause,
    Resume,
    Reset,
}

/// The command that a key event stands for, if it stands for one: `q` or
/// `Q` quits, escape leaves at the end of the round, tab shows the next tab,
/// `r` or `R` refreshes, the space bar works the timer, and `t` with the
/// control key changes the theme. Only keys that went down count.
pub open spec fn command_of(key: KeyPress) -> Option<Command> {
    if !key.pressed {
        None
    } else {
        match key.code {
            KeyCode::Char(c) => if c == 'q' || c == 'Q' {
                Some(Command::Quit)
            } else if c == 'r' || c == 'R' {
                Some(Command::Refresh)
            } else if c == ' ' {
                Some(Command::ToggleTimer)
            } else if c == 't' && key.control {
                Some(Command::CycleTheme)
            } else {
                None
            },
            KeyCode::Esc => Some(Command::Escape),
            KeyCode::Tab => Some(Command::NextTab),
            KeyCode::Other => None,
        }
    }
}

/// What the timer's key does to a timer in the state `state`.
pub open spec fn toggle_of(state: TimerState) -> TimerAction {
    match state {
        TimerState::Idle => TimerAction::Start,
        TimerState::Running => TimerAction::Pause,
        TimerState::Paused => TimerAction::Resume,
        TimerState::Completed => TimerAction::Reset,
    }
}

impl TimerAction {
    /// The line that the log gets when this is done.
    pub open spec fn label(self) -> Seq<char> {
        match self {
            TimerAction::Start => "Timer started"@,
            TimerAction::Pause => "Timer paused"@,
            TimerAction::Resume => "Timer resumed"@,
            TimerAction::Reset => "Timer reset"@,
        }
    }

    /// The timer after this was done to it, its open segment having lasted
    /// `segment` seconds.
    pub open spec fn applied(self, timer: TimerView, segment: nat) -> TimerView {
        match self {
            TimerAction::Start => timer.started(),
            TimerAction::Pause => timer.paused(segment),
            TimerAction::Resume => timer.started(),
            TimerAction::Reset => timer.cleared(),
        }
    }

    /// The line that the log gets when this is done.
    pub fn message(self) -> (text: &'static str)
        ensures
            text@ == self.label(),
    {
        match self {
            TimerAction::Start => "Timer started",
            TimerAction::Pause => "Timer paused",
            TimerAction::Resume => "Timer resumed",
            TimerAction::Reset => "Timer reset",
        }
    }
}

/// The command that a key event stands for, if it stands for one.
pub fn command_for(key: &KeyPress) -> (command: Option<Command>)
    ensures
        command == command_of(*key),
{
    if !key.pressed {
        return None;
    }
    match key.code {
        KeyCode::Char(c) => {
            if c == 'q' || c == 'Q' {
                Some(Command::Quit)
            } else if c == 'r' || c == 'R' {
                Some(Command::Refresh)
            } else if c == ' ' {
                Some(Command::ToggleTimer)
            } else if c == 't' && key.control {
                Some(Command::CycleTheme)
            } else {
                None
            }
        },
        KeyCode::Esc => Some(Command::Escape),
        KeyCode::Tab => Some(Command::NextTab),
        KeyCode::Other => None,
    }
}

/// What the timer's key does to a timer in the state `state`.
pub fn toggle_action(state: TimerState) -> (action: TimerAction)
    ensures
        action == toggle_of(state),
{
    match state {
        TimerState::Idle => TimerAction::Start,
        TimerState::Running => TimerAction::Pause,
        TimerState::Paused => TimerAction::Resume,
        TimerState::Completed => TimerAction::Reset,
    }
}

/// Whether `after` is the dashboard `before` after the timer's key, the
/// timer's open segment having lasted `segment` seconds: the timer was
/// started, paused, resumed or reset as its state asked, the log says which,
/// and nothing else changed.
pub open spec fn toggled(before: App, after: App, segment: nat) -> bool {
    let action = toggle_of(before.timer@.state);
    &&& after.timer@ == action.applied(before.timer@, segment)
    &&& lines(after.logs@) == ring_push(lines(before.logs@), action.label())
    &&& after == (App { timer: after.timer, logs: after.logs, ..before })
}

/// Works the timer's key on a timer whose open segment has lasted
/// `segment_secs` seconds.
pub fn handle_timer_after(app: &mut App, segment_secs: u64)
    ensures
        toggled(*old(app), *final(app), segment_secs as nat),
{
    let action = toggle_action(app.timer.state());
    match action {
        TimerAction::Start => {
            app.timer.start();
        },
        TimerAction::Pause => {
            app.timer.pause_after(segment_secs);
        },
        TimerAction::Resume => {
            app.timer.start();
        },
        TimerAction::Reset => {
            app.timer.reset();
        },
    }
    let message = action.message().to_owned();
    proof {
        lemma_lines_of_ring_push(app.logs@, message);
    }
    app.add_log(message);
}

/// Works the timer's key, measuring the timer's open segment against the
/// clock.
pub fn handle_timer(app: &mut App)
    ensures
        exists|segment: u64| #[trigger] toggled(*old(app), *final(app), segment as nat),
{
    let segment = app.timer.running_segment();
    handle_timer_after(app, segment);
}

/// Whether `after` and `chosen` are the dashboard `before` and its choice of
/// theme `choice` after `command`, the timer's open segment having lasted
/// `segment` seconds.
pub open spec fn dispatched(
    before: App,
    choice: ThemeManager,
    command: Command,
    segment: nat,
    after: App,
    chosen: ThemeManager,
) -> bool {
    &&& match command {
        Command::Quit => after == before,
        Command::Escape => after == (App { should_quit: true, ..before }),
        Command::NextTab => after == (App {
            current_tab: ((before.current_tab + 1) % (crate::app::TAB_COUNT as int)) as usize,
            ..before
        }),
        Command::Refresh => after == before,
        Command::ToggleTimer => toggled(before, after, segment),
        Command::CycleTheme => after == before,
    }
    &&& chosen.keys() == choice.keys()
    &&& chosen.themes() == choice.themes()
    &&& chosen.current_index() == if command == Command::CycleTheme {
        (choice.current_index() + 1) % (choice.keys().len() as int)
    } else {
        choice.current_index()
    }
}

/// What is left to do after `command`.
pub open spec fn effect_of(command: Command) -> Effect {
    match command {
        Command::Quit => Effect::Exit,
        Command::Refresh => Effect::Refresh,
        _ => Effect::Continue,
    }
}

/// Carries out `command` on a dashboard whose timer's open segment has
/// lasted `segment_secs` seconds, and says what is left to do.
pub fn dispatch_after(
    app: &mut App,
    themes: &mut ThemeManager,
    command: Command,
    segment_secs: u64,
) -> (effect: Effect)
    ensures
        effect == effect_of(command),
        dispatched(*old(app), *old(themes), command, segment_secs as nat, *final(app), *final(themes)),
{
    match command {
        Command::Quit => Effect::Exit,
        Command::Escape => {
            app.quit();
            Effect::Continue
        },
        Command::NextTab => {
            app.next_tab();
            Effect::Continue
        },
        Command::Refresh => Effect::Refresh,
        Command::ToggleTimer => {
            handle_timer_after(app, segment_secs);
            Effect::Continue
        },
        Command::CycleTheme => {
            themes.cycle_theme();
            Effect::Continue
        },
    }
}

/// Carries out `command`, measuring the timer's open segment against the
/// clock, and says what is left to do.
pub fn dispatch(app: &mut App, themes: &mut ThemeManager, command: Command) -> (effect: Effect)
    ensures
        effect == effect_of(command),
        exists|segment: u64| #[trigger]
            dispatched(*old(app), *old(themes), command, segment as nat, *final(app), *final(themes)),
{
    let segment = app.timer.running_segment();
    dispatch_after(app, themes, command, segment)
}

/// Carries out what a key event asks for, if it asks for anything; a key
/// without a command changes nothing.
pub fn handle_key(app: &mut App, themes: &mut ThemeManager, key: &KeyPress) -> (effect: Effect)
    ensures
        match command_of(*key) {
            Some(command) => effect == effect_of(command) && exists|segment: u64| #[trigger]
                dispatched(
                    *old(app),
                    *old(themes),
                    command,
                    segment as nat,
                    *final(app),
                    *final(themes),
                ),
            None => effect == Effect::Continue && *final(app) == *old(app) && *final(themes) == *old(
                themes,
            ),
        },
{
    match command_for(key) {
        Some(command) => dispatch(app, themes, command),
        None => Effect::Continue,
    }
}

/// Whether the providers are due to be asked again, `since_last_secs` whole
/// seconds after they were last asked.
pub fn refresh_due(since_last_secs: u64) -> (due: bool)
    ensures
        due == (since_last_secs >= REFRESH_SECS),
{
    since_last_secs >= REFRESH_SECS
}

/// What is left of a round once the key event, if there was one, was
/// carried out.
#[derive(Debug, Clone, Copy, PartialEq, Eq, Structural)]
pub struct RoundPlan {
    /// Ask the providers now, because the user asked for it.
    pub refresh_now: bool,
    /// Look at the clock, and ask the providers if they are due.
    pub check_interval: bool,
    /// Leave the loop when that is done.
    pub ends: bool,
}

/// The plan for the rest of a round. A command to leave at once ends the
/// round without asking any provider. Else the providers are asked where
/// the user asked for it, the clock is looked at in any case, and the round
/// ends the loop where the dashboard was asked to stop.
pub open spec fn plan_of(should_quit: bool, effect: Effect) -> RoundPlan {
    match effect {
        Effect::Exit => RoundPlan { refresh_now: false, check_interval: false, ends: true },
        Effect::Refresh => RoundPlan { refresh_now: true, check_interval: true, ends: should_quit },
        Effect::Continue => RoundPlan {
            refresh_now: false,
            check_interval: true,
            ends: should_quit,
        },
    }
}

/// The plan for the rest of a round of the dashboard `app`, the key event
/// having left `effect` to do.
pub fn plan_round(app: &App, effect: Effect) -> (plan: RoundPlan)
    ensures
        plan == plan_of(app.should_quit, effect),
{
    match effect {
        Effect::Exit => RoundPlan { refresh_now: false, check_interval: false, ends: true },
        Effect::Refresh => RoundPlan {
            refresh_now: true,
            check_interval: true,
            ends: app.should_quit,
        },
        Effect::Continue => RoundPlan {
            refresh_now: false,
            check_interval: true,
            ends: app.should_quit,
        },
    }
}

/// Whether the loop ends with this round: the user asked to leave at once,
/// or asked before to leave at the end of a round.
pub fn round_ends(app: &App, effect: Effect) -> (ends: bool)
    ensures
        ends == (effect == Effect::Exit || app.should_quit),
        ends == plan_of(app.should_quit, effect).ends,
{
    match effect {
        Effect::Exit => true,
        _ => app.should_quit,
    }
}

/// A dashboard that was asked to stop ends its loop with the round in which
/// it was asked, whatever the key of that round; one that was not goes on
/// unless the key asks to leave at once; and the clock is looked at in
/// every round that is not left at once.
pub proof fn lemma_rounds_end_when_asked(should_quit: bool, effect: Effect)
    ensures
        should_quit ==> plan_of(should_quit, effect).ends,
        !should_quit ==> (plan_of(should_quit, effect).ends <==> effect == Effect::Exit),
        plan_of(should_quit, effect).check_interval <==> effect != Effect::Exit,
        plan_of(should_quit, effect).refresh_now <==> effect == Effect::Refresh,
{
}

/// The timer's key is defined in every state, and pressing it does what the
/// timer's own operations do: it never completes a timer, it leaves a
/// completed one idle, and after it an idle or paused timer runs.
pub proof fn lemma_toggle_is_total(timer: TimerView, segment: nat)
    ensures
        toggle_of(timer.state).applied(timer, segment).state == match timer.state {
            TimerState::Idle => TimerState::Running,
            TimerState::Running => TimerState::Paused,
            TimerState::Paused => TimerState::Running,
            TimerState::Completed => TimerState::Idle,
        },
        toggle_of(timer.state).applied(timer, segment).duration == timer.duration,
{
}

} // verus!
