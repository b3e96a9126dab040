//! Dashboard state: the agents of a swarm, their status and logs, and the
//! keyboard navigation between them.

use std::collections::VecDeque;
use vstd::prelude::*;
use vstd::arithmetic::div_mod::{lemma_mod_self_0, lemma_small_mod};

verus! {

// ── Colours ────────────────────────────────────────────────────────────

/// The terminal colours that the dashboard uses.
#[derive(Debug, Clone, Copy, PartialEq, Eq)]
pub enum Color {
    DarkGray,
    Cyan,
    Green,
    Red,
    Yellow,
    White,
}

// ── Agent status ───────────────────────────────────────────────────────

/// Lifecycle status of a single swarm agent.
#[derive(Debug, Clone, PartialEq, Eq)]
pub enum AgentStatus {
    Pending,
    Running,
    Success,
    Error(String),
}

/// A status, with the message of an error as its characters.
pub enum StatusView {
    Pending,
    Running,
    Success,
    Error(Seq<char>),
}

impl View for AgentStatus {
    type V = StatusView;

    open spec fn view(&self) -> StatusView {
        match self {
            AgentStatus::Pending => StatusView::Pending,
            AgentStatus::Running => StatusView::Running,
            AgentStatus::Success => StatusView::Success,
            AgentStatus::Error(m) => StatusView::Error(m@),
        }
    }
}

/// The label shown for a status.
pub open spec fn status_label(s: AgentStatus) -> Seq<char> {
    match s {
        AgentStatus::Pending => "⏳ Pending"@,
        AgentStatus::Running => "▶ Running"@,
        AgentStatus::Success => "✔ Success"@,
        AgentStatus::Error(_) => "✖ Error"@,
    }
}

/// The colour of a status.
pub open spec fn status_color(s: AgentStatus) -> Color {
    match s {
        AgentStatus::Pending => Color::DarkGray,
        AgentStatus::Running => Color::Cyan,
        AgentStatus::Success => Color::Green,
        AgentStatus::Error(_) => Color::Red,
    }
}

impl AgentStatus {
    /// The label shown for this status.
    pub fn label(&self) -> (r: &'static str)
        ensures
            r@ == status_label(*self),
    {
        match self {
            AgentStatus::Pending => "⏳ Pending",
            AgentStatus::Running => "▶ Running",
            AgentStatus::Success => "✔ Success",
            AgentStatus::Error(_) => "✖ Error",
        }
    }

    /// The colour of this status.
    pub fn color(&self) -> (c: Color)
        ensures
            c == status_color(*self),
    {
        match self {
            AgentStatus::Pending => Color::DarkGray,
            AgentStatus::Running => Color::Cyan,
            AgentStatus::Success => Color::Green,
            AgentStatus::Error(_) => Color::Red,
        }
    }
}

// ── Agent state ────────────────────────────────────────────────────────

/// The number of log lines an agent keeps.
pub const MAX_LOG_LINES: usize = 256;

/// State for one concurrent agent in the swarm.
#[derive(Debug, Clone)]
pub struct AgentState {
    pub url: String,
    pub goal: String,
    pub status: AgentStatus,
    /// Bounded ring-buffer of recent SSE log messages.
    pub logs: VecDeque<String>,
    /// Heuristic progress percentage (0–100).
    pub progress: u16,
}

/// The log after `line` is pushed: when the log already holds
/// `MAX_LOG_LINES` lines its oldest line is dropped.
pub open spec fn pushed_log(logs: Seq<String>, line: String) -> Seq<String> {
    if logs.len() == MAX_LOG_LINES {
        logs.drop_first().push(line)
    } else {
        logs.push(line)
    }
}

impl AgentState {
    /// A pending agent for `url` and `goal`, with no logs and no progress.
    pub fn new(url: String, goal: String) -> (a: Self)
        ensures
            a.url == url,
            a.goal == goal,
            a.status == AgentStatus::Pending,
            a.logs@ == Seq::<String>::empty(),
            a.progress == 0,
    {
        AgentState {
            url,
            goal,
            status: AgentStatus::Pending,
            logs: VecDeque::with_capacity(MAX_LOG_LINES),
            progress: 0,
        }
    }

    /// Push a log line, evicting the oldest entry if the buffer is full.
    pub fn push_log(&mut self, line: String)
        ensures
            final(self).logs@ == pushed_log(old(self).logs@, line),
            final(self).url == old(self).url,
            final(self).goal == old(self).goal,
            final(self).status == old(self).status,
            final(self).progress == old(self).progress,
    {
        if self.logs.len() == MAX_LOG_LINES {
            self.logs.pop_front();
        }
        self.logs.push_back(line);
    }
}

/// A log holding at most `MAX_LOG_LINES` lines still does after a push, its
/// newest line is the pushed one, and the lines before it are the most
/// recent lines that it held, in order.
pub proof fn log_stays_bounded(logs: Seq<String>, line: String)
    requires
        logs.len() <= MAX_LOG_LINES,
    ensures
        pushed_log(logs, line).len() <= MAX_LOG_LINES,
        pushed_log(logs, line).last() == line,
        pushed_log(logs, line).drop_last() == logs.skip(
            logs.len() + 1 - pushed_log(logs, line).len(),
        ),
{
    let r = pushed_log(logs, line);
    if logs.len() == MAX_LOG_LINES {
        assert(r.drop_last() =~= logs.skip(1));
    } else {
        assert(r.drop_last() =~= logs.skip(0));
    }
}

// ── Keyboard input ─────────────────────────────────────────────────────

/// The keys that the dashboard distinguishes.
#[derive(Debug, Clone, Copy, PartialEq, Eq)]
pub enum Key {
    Char(char),
    Esc,
    Tab,
    BackTab,
    Left,
    Right,
    Up,
    Down,
    Other,
}

/// A key event: the key, whether Control was held, and whether it was a
/// press (rather than a repeat or a release).
#[derive(Debug, Clone, Copy, PartialEq, Eq)]
pub struct KeyPress {
    pub key: Key,
    pub ctrl: bool,
    pub is_press: bool,
}

/// A terminal event, as far as the dashboard reads it.
#[derive(Debug, Clone, Copy, PartialEq, Eq)]
pub enum InputEvent {
    Key(KeyPress),
    Other,
}

/// `q` and Esc quit.
pub open spec fn is_quit_key(k: Key) -> bool {
    k == Key::Char('q') || k == Key::Esc
}

/// Tab, Right and Down select the next agent.
pub open spec fn is_next_key(k: Key) -> bool {
    k == Key::Tab || k == Key::Right || k == Key::Down
}

/// BackTab, Left and Up select the previous agent.
pub open spec fn is_prev_key(k: Key) -> bool {
    k == Key::BackTab || k == Key::Left || k == Key::Up
}

/// The selection after "next" among `n` agents: one further, wrapping round.
pub open spec fn next_selection(selected: int, n: int) -> int {
    (selected + 1) % n
}

/// The selection after "previous" among `n` agents: one back, from the first
/// to the last.
pub open spec fn prev_selection(selected: int, n: int) -> int {
    if selected == 0 {
        n - 1
    } else {
        selected - 1
    }
}

/// The selection and quit flag after an event, with `n` agents.
pub open spec fn after_event(selected: usize, quit: bool, n: nat, event: Option<InputEvent>) -> (int, bool) {
    match event {
        Some(InputEvent::Key(k)) => {
            if !k.is_press {
                (selected as int, quit)
            } else if is_quit_key(k.key) {
                (selected as int, true)
            } else if is_next_key(k.key) && n > 0 {
                (next_selection(selected as int, n as int), quit)
            } else if is_prev_key(k.key) && n > 0 {
                (prev_selection(selected as int, n as int), quit)
            } else {
                (selected as int, quit)
            }
        },
        _ => (selected as int, quit),
    }
}

/// "Next" would step past `usize::MAX`.
pub open spec fn next_overflows(selected: usize, n: nat, event: Option<InputEvent>) -> bool {
    &&& event matches Some(InputEvent::Key(k))
    &&& k.is_press && is_next_key(k.key) && n > 0
    &&& selected == usize::MAX
}

// ── App (top-level UI state) ───────────────────────────────────────────

/// Root application state for the Krill Swarm TUI.
pub struct App {
    pub agents: Vec<AgentState>,
    /// Index of the currently highlighted agent pane.
    pub selected: usize,
    /// Set to `true` when the user requests quit (q / Esc).
    pub should_quit: bool,
}

impl App {
    /// The dashboard of `agents`, with the first one selected.
    pub fn new(agents: Vec<AgentState>) -> (app: Self)
        ensures
            app.agents == agents,
            app.selected == 0,
            !app.should_quit,
    {
        App { agents, selected: 0, should_quit: false }
    }

    /// Process one terminal event, if one arrived: `q`/Esc request quit,
    /// Tab/Right/Down and BackTab/Left/Up cycle the selection.
    pub fn handle_event(&mut self, event: Option<InputEvent>)
        requires
            !next_overflows(old(self).selected, old(self).agents@.len(), event),
        ensures
            final(self).agents == old(self).agents,
            (final(self).selected as int, final(self).should_quit) == after_event(
                old(self).selected,
                old(self).should_quit,
                old(self).agents@.len(),
                event,
            ),
    {
        if let Some(InputEvent::Key(k)) = event {
            if !k.is_press {
                return;
            }
            match k.key {
                Key::Char('q') | Key::Esc => {
                    self.should_quit = true;
                },
                Key::Tab | Key::Right | Key::Down => {
                    if self.agents.len() > 0 {
                        self.selected = (self.selected + 1) % self.agents.len();
                    }
                },
                Key::BackTab | Key::Left | Key::Up => {
                    if self.agents.len() > 0 {
                        self.selected = if self.selected == 0 {
                            self.agents.len() - 1
                        } else {
                            self.selected - 1
                        };
                    }
                },
                _ => {},
            }
        }
    }
}

/// The selection stays on an agent: from a selection in range, every event
/// leaves it in range.
pub proof fn selection_stays_in_range(selected: usize, quit: bool, n: nat, event: Option<InputEvent>)
    requires
        selected < n,
    ensures
        0 <= after_event(selected, quit, n, event).0 < n,
{
}

/// "Previous" undoes "next", and "next" undoes "previous".
pub proof fn previous_undoes_next(selected: int, n: int)
    requires
        0 <= selected < n,
    ensures
        prev_selection(next_selection(selected, n), n) == selected,
        next_selection(prev_selection(selected, n), n) == selected,
{
    lemma_mod_self_0(n);
    if selected + 1 < n {
        lemma_small_mod((selected + 1) as nat, n as nat);
    }
    if selected > 0 {
        lemma_small_mod(selected as nat, n as nat);
    }
}

} // verus!
