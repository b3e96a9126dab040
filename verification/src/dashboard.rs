//! What the swarm dashboard shows: the texts, colours and counts that the
//! drawing code lays out.

use vstd::prelude::*;
use crate::text::{concat, join_strings, join_with, string_of, views_of};
use crate::tui::{status_color, status_label, AgentState, AgentStatus, App, Color};

verus! {

// ── Numbers ────────────────────────────────────────────────────────────

/// The decimal digit for `d < 10`.
pub open spec fn digit_char(d: nat) -> char {
    if d == 0 { '0' }
    else if d == 1 { '1' }
    else if d == 2 { '2' }
    else if d == 3 { '3' }
    else if d == 4 { '4' }
    else if d == 5 { '5' }
    else if d == 6 { '6' }
    else if d == 7 { '7' }
    else if d == 8 { '8' }
    else { '9' }
}

/// The decimal notation of `n`, as integers display.
pub open spec fn decimal(n: nat) -> Seq<char>
    decreases n,
{
    if n < 10 {
        seq![digit_char(n)]
    } else {
        decimal(n / 10).push(digit_char(n % 10))
    }
}

/// The digit for `d`.
fn digit(d: u64) -> (c: char)
    requires
        d < 10,
    ensures
        c == digit_char(d as nat),
{
    if d == 0 { '0' }
    else if d == 1 { '1' }
    else if d == 2 { '2' }
    else if d == 3 { '3' }
    else if d == 4 { '4' }
    else if d == 5 { '5' }
    else if d == 6 { '6' }
    else if d == 7 { '7' }
    else if d == 8 { '8' }
    else { '9' }
}

/// The decimal notation of `n`.
pub fn decimal_string(n: u64) -> (r: String)
    ensures
        r@ == decimal(n as nat),
{
    let mut m = n;
    let mut ds: Vec<char> = Vec::new();
    assert(decimal(n as nat) =~= decimal(m as nat) + ds@);
    while m >= 10
        invariant
            decimal(n as nat) == decimal(m as nat) + ds@,
        decreases m,
    {
        let ghost before = ds@;
        ds.insert(0, digit(m % 10));
        assert(decimal(m as nat) == decimal((m / 10) as nat).push(digit_char((m % 10) as nat)));
        assert(decimal((m / 10) as nat) + ds@ =~= decimal(m as nat) + before);
        m = m / 10;
    }
    let ghost before = ds@;
    ds.insert(0, digit(m));
    assert(ds@ =~= decimal(m as nat) + before);
    string_of(ds.as_slice())
}

/// The label of a percentage: the number and `%`.
pub fn percent_label(p: u16) -> (r: String)
    ensures
        r@ == decimal(p as nat) + "%"@,
{
    let mut r = decimal_string(p as u64);
    r.append("%");
    r
}

// ── Truncation ─────────────────────────────────────────────────────────

/// Truncating `s` to `max` characters is defined: it fits, or there is room
/// for the `…` mark.
pub open spec fn can_truncate(s: Seq<char>, max: int) -> bool {
    s.len() <= max || max >= 1
}

/// `s` if it has at most `max` characters; otherwise its first `max - 1`
/// characters followed by `…`.
pub open spec fn truncated(s: Seq<char>, max: int) -> Seq<char> {
    if s.len() <= max {
        s
    } else {
        s.take(max - 1).push('…')
    }
}

/// Truncate a string to `max_len` characters, appending "…" if shortened.
pub fn truncate(s: &str, max_len: usize) -> (r: String)
    requires
        can_truncate(s@, max_len as int),
    ensures
        r@ == truncated(s@, max_len as int),
{
    let n = s.unicode_len();
    if n <= max_len {
        s.to_owned()
    } else {
        let head = s.substring_char(0, max_len - 1);
        let r = concat(head, "…");
        proof {
            reveal_strlit("…");
        }
        assert(s@.subrange(0, max_len - 1) =~= s@.take(max_len - 1));
        assert(r@ =~= head@.push('…'));
        r
    }
}

/// A truncated string has at most `max` characters.
pub proof fn truncated_fits(s: Seq<char>, max: int)
    requires
        can_truncate(s, max),
    ensures
        truncated(s, max).len() <= max,
{
}

/// A string that fits is left as it is.
pub proof fn truncation_keeps_short_strings(s: Seq<char>, max: int)
    requires
        s.len() <= max,
    ensures
        truncated(s, max) == s,
{
}

/// A shortened string keeps the start of the original and ends in `…`.
pub proof fn truncation_keeps_the_start(s: Seq<char>, max: int)
    requires
        s.len() > max >= 1,
    ensures
        truncated(s, max).len() == max,
        truncated(s, max).take(max - 1) == s.take(max - 1),
        truncated(s, max).last() == '…',
{
    assert(truncated(s, max).take(max - 1) =~= s.take(max - 1));
}

// ── Counts and footer ──────────────────────────────────────────────────

/// The number of agents among `agents` whose status satisfies `is`.
pub open spec fn count_status(agents: Seq<AgentState>, is: spec_fn(AgentStatus) -> bool) -> nat
    decreases agents.len(),
{
    if agents.len() == 0 {
        0
    } else {
        count_status(agents.drop_last(), is) + if is(agents.last().status) { 1nat } else { 0nat }
    }
}

/// The status is running.
pub open spec fn is_running() -> spec_fn(AgentStatus) -> bool {
    |s: AgentStatus| s is Running
}

/// The status is success.
pub open spec fn is_success() -> spec_fn(AgentStatus) -> bool {
    |s: AgentStatus| s is Success
}

/// The status is an error.
pub open spec fn is_error() -> spec_fn(AgentStatus) -> bool {
    |s: AgentStatus| s is Error
}

proof fn lemma_count_bounded(agents: Seq<AgentState>, is: spec_fn(AgentStatus) -> bool)
    ensures
        count_status(agents, is) <= agents.len(),
    decreases agents.len(),
{
    if agents.len() > 0 {
        lemma_count_bounded(agents.drop_last(), is);
    }
}

/// The numbers of running, successful and failed agents.
pub fn status_counts(agents: &Vec<AgentState>) -> (r: (usize, usize, usize))
    ensures
        r.0 == count_status(agents@, is_running()),
        r.1 == count_status(agents@, is_success()),
        r.2 == count_status(agents@, is_error()),
{
    let ghost running = is_running();
    let ghost success = is_success();
    let ghost error = is_error();
    let mut a: usize = 0;
    let mut b: usize = 0;
    let mut c: usize = 0;
    let mut k: usize = 0;
    while k < agents.len()
        invariant
            k <= agents@.len(),
            running == is_running(),
            success == is_success(),
            error == is_error(),
            a == count_status(agents@.take(k as int), running),
            b == count_status(agents@.take(k as int), success),
            c == count_status(agents@.take(k as int), error),
        decreases agents.len() - k,
    {
        assert(agents@.take(k + 1).drop_last() =~= agents@.take(k as int));
        assert(agents@.take(k + 1).last() == agents@[k as int]);
        proof {
            lemma_count_bounded(agents@.take(k as int), running);
            lemma_count_bounded(agents@.take(k as int), success);
            lemma_count_bounded(agents@.take(k as int), error);
        }
        match &agents[k].status {
            AgentStatus::Running => a = a + 1,
            AgentStatus::Success => b = b + 1,
            AgentStatus::Error(_) => c = c + 1,
            AgentStatus::Pending => {},
        }
        k = k + 1;
    }
    assert(agents@.take(agents@.len() as int) =~= agents@);
    (a, b, c)
}

/// Every agent is counted at most once: the three counts add up to at most
/// the number of agents.
pub proof fn counts_partition(agents: Seq<AgentState>)
    ensures
        count_status(agents, is_running()) + count_status(
            agents,
            is_success(),
        ) + count_status(agents, is_error()) <= agents.len(),
    decreases agents.len(),
{
    if agents.len() > 0 {
        counts_partition(agents.drop_last());
    }
}

/// The statistics of the status bar: the number of agents, then the
/// running, successful and failed ones.
pub open spec fn footer_stats(n: nat, running: nat, done: nat, failed: nat) -> Seq<char> {
    "agents: "@ + decimal(n) + " │ ▶ "@ + decimal(running) + " │ ✔ "@ + decimal(done) + " │ ✖ "@
        + decimal(failed) + " "@
}

/// The statistics of the status bar.
pub fn footer_text(app: &App) -> (r: String)
    ensures
        r@ == footer_stats(
            app.agents@.len(),
            count_status(app.agents@, is_running()),
            count_status(app.agents@, is_success()),
            count_status(app.agents@, is_error()),
        ),
{
    let (running, done, failed) = status_counts(&app.agents);
    let mut r = concat("agents: ", decimal_string(app.agents.len() as u64).as_str());
    r.append(" │ ▶ ");
    r.append(decimal_string(running as u64).as_str());
    r.append(" │ ✔ ");
    r.append(decimal_string(done as u64).as_str());
    r.append(" │ ✖ ");
    r.append(decimal_string(failed as u64).as_str());
    r.append(" ");
    r
}

// ── Roster ─────────────────────────────────────────────────────────────

/// The icon of a status in the roster.
pub open spec fn status_icon(s: AgentStatus) -> Seq<char> {
    match s {
        AgentStatus::Pending => "⏳"@,
        AgentStatus::Running => "▶"@,
        AgentStatus::Success => "✔"@,
        AgentStatus::Error(_) => "✖"@,
    }
}

/// The icon of a status in the roster.
pub fn icon(s: &AgentStatus) -> (r: &'static str)
    ensures
        r@ == status_icon(*s),
{
    match s {
        AgentStatus::Pending => "⏳",
        AgentStatus::Running => "▶",
        AgentStatus::Success => "✔",
        AgentStatus::Error(_) => "✖",
    }
}

/// The roster icon of a status is the glyph that begins its label.
pub proof fn roster_icon_begins_the_label(s: AgentStatus)
    ensures
        status_icon(s).len() == 1,
        status_icon(s) == status_label(s).take(1),
{
    reveal_strlit("⏳");
    reveal_strlit("▶");
    reveal_strlit("✔");
    reveal_strlit("✖");
    reveal_strlit("⏳ Pending");
    reveal_strlit("▶ Running");
    reveal_strlit("✔ Success");
    reveal_strlit("✖ Error");
    assert(status_icon(s) =~= status_label(s).take(1));
}

/// Two statuses share a roster icon exactly when they share a colour:
/// pending, running, success and error each have their own icon.
pub proof fn roster_icons_tell_statuses_apart(a: AgentStatus, b: AgentStatus)
    ensures
        status_icon(a) == status_icon(b) <==> status_color(a) == status_color(b),
{
    reveal_strlit("⏳");
    reveal_strlit("▶");
    reveal_strlit("✔");
    reveal_strlit("✖");
    if status_icon(a) == status_icon(b) {
        assert(status_icon(a)[0] == status_icon(b)[0]);
    }
}

/// `a - b`, or 0 when `b` is larger.
pub open spec fn minus(a: int, b: int) -> int {
    if a > b { a - b } else { 0 }
}

/// One line of the roster: its text, colour, and whether it is bold.
pub struct RosterLine {
    pub text: String,
    pub color: Color,
    pub bold: bool,
}

/// The roster line of an agent in a list `width` cells wide: its icon and
/// its URL truncated to `width - 6`; the selected agent in bold yellow, the
/// others in the colour of their status.
pub fn roster_line(agent: &AgentState, is_selected: bool, width: usize) -> (r: RosterLine)
    requires
        can_truncate(agent.url@, minus(width as int, 6)),
    ensures
        r.text@ == " "@ + status_icon(agent.status) + " "@ + truncated(agent.url@, minus(width as int, 6)),
        r.color == (if is_selected { Color::Yellow } else { status_color(agent.status) }),
        r.bold == is_selected,
{
    let max = if width > 6 { width - 6 } else { 0 };
    let mut text = concat(" ", icon(&agent.status));
    text.append(" ");
    text.append(truncate(agent.url.as_str(), max).as_str());
    if is_selected {
        RosterLine { text, color: Color::Yellow, bold: true }
    } else {
        RosterLine { text, color: agent.status.color(), bold: false }
    }
}

// ── Detail pane ────────────────────────────────────────────────────────

/// The title of the detail pane: the URL cut to 50 characters and the status.
pub fn detail_title(agent: &AgentState) -> (r: String)
    ensures
        r@ == " "@ + truncated(agent.url@, 50) + " — "@ + status_label(agent.status) + " "@,
{
    let mut r = concat(" ", truncate(agent.url.as_str(), 50).as_str());
    r.append(" — ");
    r.append(agent.status.label());
    r.append(" ");
    r
}

/// The log lines that fit in `visible` rows: the last ones, joined with `\n`.
pub fn visible_log(agent: &AgentState, visible: usize) -> (r: String)
    ensures
        r@ == join_with(
            views_of(agent.logs@.skip(minus(agent.logs@.len() as int, visible as int))),
            "\n"@,
        ),
{
    let n = agent.logs.len();
    let start = if n > visible { n - visible } else { 0 };
    let mut lines: Vec<String> = Vec::new();
    let mut k: usize = start;
    while k < n
        invariant
            start <= k <= n,
            n == agent.logs@.len(),
            lines@ == agent.logs@.subrange(start as int, k as int),
        decreases n - k,
    {
        lines.push(agent.logs[k].clone());
        assert(agent.logs@.subrange(start as int, k + 1) =~= agent.logs@.subrange(start as int, k as int).push(agent.logs@[k as int]));
        k = k + 1;
    }
    assert(agent.logs@.subrange(start as int, n as int) =~= agent.logs@.skip(start as int));
    join_strings(&lines, "\n")
}

/// The colour of the progress gauge: green on success, red on error,
/// yellow otherwise.
pub open spec fn gauge_color_of(s: AgentStatus) -> Color {
    match s {
        AgentStatus::Success => Color::Green,
        AgentStatus::Error(_) => Color::Red,
        _ => Color::Yellow,
    }
}

/// The colour of the progress gauge.
pub fn gauge_color(s: &AgentStatus) -> (c: Color)
    ensures
        c == gauge_color_of(*s),
{
    match s {
        AgentStatus::Success => Color::Green,
        AgentStatus::Error(_) => Color::Red,
        _ => Color::Yellow,
    }
}

/// The truncation width of the URL in the telemetry panel, `inner` cells
/// wide.
pub fn telemetry_url(agent: &AgentState, inner: usize) -> (r: String)
    requires
        can_truncate(agent.url@, minus(inner as int, 10)),
    ensures
        r@ == truncated(agent.url@, minus(inner as int, 10)),
{
    let max = if inner > 10 { inner - 10 } else { 0 };
    truncate(agent.url.as_str(), max)
}

} // verus!
