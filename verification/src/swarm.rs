//! The decisions of the swarm: what each worker reports to the dashboard,
//! how the dashboard applies the reports, and the text the CLI prints.

use vstd::prelude::*;
use crate::text::{
    concat, is_white_space, join_strings, join_with, lines_of, opt_view, split_lines, trim, trim_end_ws,
    trim_start_ws, trim_ws, views_of,
};
use crate::tui::{
    after_event, next_overflows, pushed_log, status_label, AgentState, AgentStatus, App, InputEvent,
    Key, StatusView,
};
use crate::types::{pretty_json, render_result, RunStatus, SseEvent};

verus! {

// ── Progress lines ─────────────────────────────────────────────────────

/// The log line of a progress event with the given purpose and message
/// (absent ones read as empty): none when both are empty, the one that is
/// not empty, or `[purpose] message`.
pub open spec fn progress_line(purpose: Seq<char>, message: Seq<char>) -> Option<Seq<char>> {
    if purpose.len() == 0 && message.len() == 0 {
        None
    } else if purpose.len() == 0 {
        Some(message)
    } else if message.len() == 0 {
        Some(purpose)
    } else {
        Some("["@ + purpose + "] "@ + message)
    }
}

/// The characters of an optional string, or none.
pub open spec fn or_empty(o: Option<String>) -> Seq<char> {
    match o {
        Some(s) => s@,
        None => Seq::empty(),
    }
}

/// The log line of a progress event.
pub fn format_progress_line(purpose: Option<String>, message: Option<String>) -> (r: Option<String>)
    ensures
        opt_view(r) == progress_line(or_empty(purpose), or_empty(message)),
{
    let purpose = match purpose {
        Some(p) => p,
        None => String::new(),
    };
    let message = match message {
        Some(m) => m,
        None => String::new(),
    };
    if purpose.as_str().is_empty() && message.as_str().is_empty() {
        None
    } else if purpose.as_str().is_empty() {
        Some(message)
    } else if message.as_str().is_empty() {
        Some(purpose)
    } else {
        let a = concat("[", purpose.as_str());
        let b = concat(a.as_str(), "] ");
        Some(concat(b.as_str(), message.as_str()))
    }
}

// ── Agent updates ──────────────────────────────────────────────────────

/// A report from a worker to the dashboard about agent `.0`.
#[derive(Debug, Clone)]
pub enum AgentUpdate {
    Log(usize, String),
    StatusChange(usize, AgentStatus),
}

/// A report, with its text as characters.
pub enum UpdateView {
    Log(usize, Seq<char>),
    StatusChange(usize, StatusView),
}

impl View for AgentUpdate {
    type V = UpdateView;

    open spec fn view(&self) -> UpdateView {
        match self {
            AgentUpdate::Log(i, m) => UpdateView::Log(*i, m@),
            AgentUpdate::StatusChange(i, s) => UpdateView::StatusChange(*i, s@),
        }
    }
}

/// The views of a sequence of reports.
pub open spec fn updates_view(s: Seq<AgentUpdate>) -> Seq<UpdateView> {
    s.map_values(|u: AgentUpdate| u@)
}

/// A report may be applied without overflow: a log line for an existing
/// agent needs room for 5 more points of progress.
pub open spec fn update_fits(agents: Seq<AgentState>, update: AgentUpdate) -> bool {
    match update {
        AgentUpdate::Log(i, _) => i < agents.len() ==> agents[i as int].progress + 5 <= u16::MAX,
        AgentUpdate::StatusChange(_, _) => true,
    }
}

/// Progress after one more log line: 5 points more, but not past 95.
pub open spec fn progress_after_log(p: u16) -> u16 {
    if p + 5 < 95 {
        (p + 5) as u16
    } else {
        95
    }
}

/// Applies a worker's report to the dashboard. A log line is pushed to the
/// agent's log and advances its progress by 5, to at most 95; a status
/// change sets the status, and success sets progress to 100. Reports about
/// agents that do not exist are ignored.
pub fn apply_agent_update(app: &mut App, update: AgentUpdate)
    requires
        update_fits(old(app).agents@, update),
    ensures
        final(app).selected == old(app).selected,
        final(app).should_quit == old(app).should_quit,
        final(app).agents@.len() == old(app).agents@.len(),
        forall|j: int|
            0 <= j < old(app).agents@.len() && j != (match update {
                AgentUpdate::Log(i, _) => i,
                AgentUpdate::StatusChange(i, _) => i,
            }) ==> #[trigger] final(app).agents@[j] == old(app).agents@[j],
        match update {
            AgentUpdate::Log(i, m) => i < old(app).agents@.len() ==> {
                let a = old(app).agents@[i as int];
                let b = final(app).agents@[i as int];
                &&& b.logs@ == pushed_log(a.logs@, m)
                &&& b.progress == progress_after_log(a.progress)
                &&& b.url == a.url && b.goal == a.goal && b.status == a.status
            },
            AgentUpdate::StatusChange(i, s) => i < old(app).agents@.len() ==> {
                let a = old(app).agents@[i as int];
                let b = final(app).agents@[i as int];
                &&& b.status == s
                &&& b.progress == (if s is Success { 100 } else { a.progress })
                &&& b.logs == a.logs && b.url == a.url && b.goal == a.goal
            },
        },
        forall|j: int|
            0 <= j < old(app).agents@.len() && old(app).agents@[j].progress <= 100
                ==> #[trigger] final(app).agents@[j].progress <= 100,
{
    match update {
        AgentUpdate::Log(agent_idx, message) => {
            if agent_idx < app.agents.len() {
                app.agents[agent_idx].push_log(message);
                let p = app.agents[agent_idx].progress + 5;
                app.agents[agent_idx].progress = if p < 95 { p } else { 95 };
            }
        },
        AgentUpdate::StatusChange(agent_idx, status) => {
            if agent_idx < app.agents.len() {
                if let AgentStatus::Success = status {
                    app.agents[agent_idx].progress = 100;
                }
                app.agents[agent_idx].status = status;
            }
        },
    }
}

// ── Swarm worker ───────────────────────────────────────────────────────

/// How many runs of a swarm stream at the same time.
pub const MAX_CONCURRENT_RUNS: usize = 10;

/// The status that a completed run reports: success, an error naming the
/// failed or cancelled status, or still running.
pub open spec fn completion_status(status: RunStatus) -> StatusView {
    match status {
        RunStatus::Completed => StatusView::Success,
        RunStatus::Failed => StatusView::Error("Run ended with Failed"@),
        RunStatus::Cancelled => StatusView::Error("Run ended with Cancelled"@),
        RunStatus::Running | RunStatus::Queued => StatusView::Running,
    }
}

/// A completion with this status ends the run.
pub open spec fn is_terminal(status: RunStatus) -> bool {
    status is Completed || status is Failed || status is Cancelled
}

/// The characters of an optional rendering.
pub open spec fn render_view(r: Option<Result<String, String>>) -> Option<Result<Seq<char>, Seq<char>>> {
    match r {
        Some(Ok(t)) => Some(Ok(t@)),
        Some(Err(e)) => Some(Err(e@)),
        None => None,
    }
}

/// The result document of a completion, pretty-printed (or the printer's
/// error message); none for other events and for a completion without one.
pub open spec fn rendered_doc(event: SseEvent) -> Option<Result<Seq<char>, Seq<char>>> {
    match event {
        SseEvent::Complete { result_json: Some(doc), .. } => Some(pretty_json(doc)),
        _ => None,
    }
}

/// The result document of an event, pretty-printed.
pub fn render_document(event: &SseEvent) -> (r: Option<Result<String, String>>)
    ensures
        render_view(r) == rendered_doc(*event),
{
    match event {
        SseEvent::Complete { result_json: Some(doc), .. } => Some(render_result(doc)),
        _ => None,
    }
}

/// The log lines of a run's result document, given its pretty-printed text
/// or the printer's error message: one line per line of the text, or one
/// line reporting the error; none without a document.
pub open spec fn result_logs(idx: usize, rendered: Option<Result<Seq<char>, Seq<char>>>) -> Seq<UpdateView> {
    match rendered {
        Some(Ok(text)) => lines_of(text).map_values(|l: Seq<char>| UpdateView::Log(idx, l)),
        Some(Err(e)) => seq![UpdateView::Log(idx, "Error formatting JSON: "@ + e)],
        None => Seq::empty(),
    }
}

/// The reports of agent `idx` on one event of its run: the run id, the
/// streaming URL, the progress line, the result document followed by the
/// new status, or nothing for a heartbeat.
pub open spec fn event_updates(idx: usize, event: SseEvent) -> Seq<UpdateView> {
    match event {
        SseEvent::Started { run_id, .. } => seq![UpdateView::Log(idx, "run_id: "@ + run_id@)],
        SseEvent::StreamingUrl { streaming_url, .. } => seq![
            UpdateView::Log(idx, "stream: "@ + streaming_url@),
        ],
        SseEvent::Progress { purpose, message, .. } => match progress_line(
            or_empty(purpose),
            or_empty(message),
        ) {
            Some(l) => seq![UpdateView::Log(idx, l)],
            None => Seq::empty(),
        },
        SseEvent::Complete { status, .. } => result_logs(idx, rendered_doc(event)).push(
            UpdateView::StatusChange(idx, completion_status(status)),
        ),
        SseEvent::Heartbeat { .. } => Seq::empty(),
    }
}

/// The two reports of a failure with message `m`: a log line and the error
/// status.
pub open spec fn failure_updates(idx: usize, m: Seq<char>) -> Seq<UpdateView> {
    seq![UpdateView::Log(idx, m), UpdateView::StatusChange(idx, StatusView::Error(m))]
}

/// How the reports of one worker step are delivered.
#[derive(Debug, Clone, Copy, PartialEq, Eq)]
pub enum Delivery {
    /// Stop at the first report that cannot be sent; when all are sent, the
    /// worker goes on.
    StopOnFailure,
    /// Send every report, delivered or not; then the worker stops.
    SendAllThenStop,
}

impl Delivery {
    /// After one report of the step: whether the rest of its reports are
    /// sent, given whether this one was delivered.
    pub fn sends_rest(&self, delivered: bool) -> (r: bool)
        ensures
            r == (delivered || *self == Delivery::SendAllThenStop),
    {
        match self {
            Delivery::StopOnFailure => delivered,
            Delivery::SendAllThenStop => true,
        }
    }

    /// After the step: whether the worker goes on reading its run, given
    /// whether every report was delivered.
    pub fn keeps_running(&self, all_delivered: bool) -> (r: bool)
        ensures
            r == (all_delivered && *self == Delivery::StopOnFailure),
    {
        match self {
            Delivery::StopOnFailure => all_delivered,
            Delivery::SendAllThenStop => false,
        }
    }
}

/// The reports of one worker step and how they are delivered.
pub struct WorkerStep {
    pub updates: Vec<AgentUpdate>,
    pub delivery: Delivery,
}

/// The decisions of one swarm worker, which runs the automation of one
/// agent and reports to the dashboard. Each step hands out reports to send
/// in order and the way to deliver them (see [`Delivery`]).
pub struct SwarmWorker {
    pub agent_idx: usize,
    /// Whether the run has reported a status that ends it.
    pub has_terminal_status: bool,
}

impl SwarmWorker {
    /// The worker of agent `agent_idx`, before its run.
    pub fn new(agent_idx: usize) -> (w: Self)
        ensures
            w.agent_idx == agent_idx,
            !w.has_terminal_status,
    {
        SwarmWorker { agent_idx, has_terminal_status: false }
    }

    /// The worker got its connection slot: the agent is running.
    fn started_reports(&self) -> (r: Vec<AgentUpdate>)
        ensures
            updates_view(r@) == seq![UpdateView::StatusChange(self.agent_idx, StatusView::Running)],
    {
        let r = vec![AgentUpdate::StatusChange(self.agent_idx, AgentStatus::Running)];
        assert(updates_view(r@) =~= seq![UpdateView::StatusChange(self.agent_idx, StatusView::Running)]);
        r
    }

    /// Reports a failure with message `m`.
    fn failure(&self, m: String) -> (r: Vec<AgentUpdate>)
        ensures
            updates_view(r@) == failure_updates(self.agent_idx, m@),
    {
        let r = vec![
            AgentUpdate::Log(self.agent_idx, m.clone()),
            AgentUpdate::StatusChange(self.agent_idx, AgentStatus::Error(m)),
        ];
        assert(updates_view(r@) =~= failure_updates(self.agent_idx, m@));
        r
    }

    /// The stream could not be started; `error` describes why.
    fn stream_failed_reports(&self, error: &str) -> (r: Vec<AgentUpdate>)
        ensures
            updates_view(r@) == failure_updates(self.agent_idx, "Failed to start stream: "@ + error@),
    {
        self.failure(concat("Failed to start stream: ", error))
    }

    /// The stream broke; `error` describes why.
    fn stream_error_reports(&self, error: &str) -> (r: Vec<AgentUpdate>)
        ensures
            updates_view(r@) == failure_updates(self.agent_idx, "Stream error: "@ + error@),
    {
        self.failure(concat("Stream error: ", error))
    }

    /// The stream closed: an error unless the run reported a status that
    /// ends it.
    fn stream_closed_reports(&self) -> (r: Vec<AgentUpdate>)
        ensures
            updates_view(r@) == (if self.has_terminal_status {
                Seq::empty()
            } else {
                seq![
                    UpdateView::StatusChange(
                        self.agent_idx,
                        StatusView::Error("Stream closed without terminal status"@),
                    ),
                ]
            }),
    {
        if self.has_terminal_status {
            let r: Vec<AgentUpdate> = Vec::new();
            assert(updates_view(r@) =~= Seq::<UpdateView>::empty());
            r
        } else {
            let r = vec![
                AgentUpdate::StatusChange(
                    self.agent_idx,
                    AgentStatus::Error("Stream closed without terminal status".to_owned()),
                ),
            ];
            assert(updates_view(r@) =~= seq![
                UpdateView::StatusChange(
                    self.agent_idx,
                    StatusView::Error("Stream closed without terminal status"@),
                ),
            ]);
            r
        }
    }

    /// The reports of one event of the run. `rendered` is the result
    /// document of a completion, pretty-printed, or the printer's error.
    fn event_reports(&mut self, event: &SseEvent, rendered: Option<Result<String, String>>) -> (r: Vec<
        AgentUpdate,
    >)
        requires
            render_view(rendered) == rendered_doc(*event),
        ensures
            final(self).agent_idx == old(self).agent_idx,
            final(self).has_terminal_status == (old(self).has_terminal_status || (
            *event matches SseEvent::Complete { status, .. } && is_terminal(status))),
            updates_view(r@) == event_updates(old(self).agent_idx, *event),
    {
        let idx = self.agent_idx;
        match event {
            SseEvent::Started { run_id, .. } => {
                let r = vec![AgentUpdate::Log(idx, concat("run_id: ", run_id.as_str()))];
                assert(updates_view(r@) =~= event_updates(idx, *event));
                r
            },
            SseEvent::StreamingUrl { streaming_url, .. } => {
                let r = vec![AgentUpdate::Log(idx, concat("stream: ", streaming_url.as_str()))];
                assert(updates_view(r@) =~= event_updates(idx, *event));
                r
            },
            SseEvent::Progress { purpose, message, .. } => {
                let mut r: Vec<AgentUpdate> = Vec::new();
                if let Some(line) = format_progress_line(purpose.clone(), message.clone()) {
                    r.push(AgentUpdate::Log(idx, line));
                }
                assert(updates_view(r@) =~= event_updates(idx, *event));
                r
            },
            SseEvent::Complete { status, .. } => {
                let mut r: Vec<AgentUpdate> = Vec::new();
                match rendered {
                    Some(Ok(text)) => {
                        let lines = split_lines(text.as_str());
                        let mut k: usize = 0;
                        while k < lines.len()
                            invariant
                                k <= lines@.len(),
                                views_of(lines@) == lines_of(text@),
                                updates_view(r@) =~= lines_of(text@).take(k as int).map_values(
                                    |l: Seq<char>| UpdateView::Log(idx, l),
                                ),
                            decreases lines.len() - k,
                        {
                            let ghost prev = r@;
                            let line = lines[k].clone();
                            r.push(AgentUpdate::Log(idx, line));
                            assert(lines_of(text@)[k as int] == lines@[k as int]@);
                            assert(r@ =~= prev.push(AgentUpdate::Log(idx, line)));
                            assert(updates_view(r@) =~= updates_view(prev).push(UpdateView::Log(idx, line@)));
                            assert(lines_of(text@).take(k + 1) =~= lines_of(text@).take(k as int).push(lines_of(text@)[k as int]));
                            k = k + 1;
                        }
                        assert(lines_of(text@).take(k as int) =~= lines_of(text@));
                    },
                    Some(Err(e)) => {
                        r.push(AgentUpdate::Log(idx, concat("Error formatting JSON: ", e.as_str())));
                    },
                    None => {},
                }
                let ghost logs = updates_view(r@);
                assert(logs =~= result_logs(idx, rendered_doc(*event)));
                let s = match status {
                    RunStatus::Completed => {
                        self.has_terminal_status = true;
                        AgentStatus::Success
                    },
                    RunStatus::Failed => {
                        self.has_terminal_status = true;
                        AgentStatus::Error("Run ended with Failed".to_owned())
                    },
                    RunStatus::Cancelled => {
                        self.has_terminal_status = true;
                        AgentStatus::Error("Run ended with Cancelled".to_owned())
                    },
                    RunStatus::Running | RunStatus::Queued => AgentStatus::Running,
                };
                r.push(AgentUpdate::StatusChange(idx, s));
                assert(updates_view(r@) =~= logs.push(UpdateView::StatusChange(idx, s@)));
                r
            },
            SseEvent::Heartbeat { .. } => {
                let r: Vec<AgentUpdate> = Vec::new();
                assert(updates_view(r@) =~= event_updates(idx, *event));
                r
            },
        }
    }

    /// The worker got its connection slot: the agent is running; the run
    /// goes on unless the report cannot be sent.
    pub fn started(&self) -> (r: WorkerStep)
        ensures
            updates_view(r.updates@) == seq![UpdateView::StatusChange(self.agent_idx, StatusView::Running)],
            r.delivery == Delivery::StopOnFailure,
            forall|i: int|
                0 <= i < r.updates@.len() ==> update_agent(#[trigger] updates_view(r.updates@)[i])
                    == self.agent_idx,
    {
        let updates = self.started_reports();
        assert(updates_view(updates@).len() == 1);
        WorkerStep { updates, delivery: Delivery::StopOnFailure }
    }

    /// The stream could not be started; `error` describes why. Both reports
    /// are sent and the worker stops.
    pub fn stream_failed(&self, error: &str) -> (r: WorkerStep)
        ensures
            updates_view(r.updates@) == failure_updates(self.agent_idx, "Failed to start stream: "@ + error@),
            r.delivery == Delivery::SendAllThenStop,
            forall|i: int|
                0 <= i < r.updates@.len() ==> update_agent(#[trigger] updates_view(r.updates@)[i])
                    == self.agent_idx,
    {
        let updates = self.stream_failed_reports(error);
        proof {
            reports_name_their_agent(self.agent_idx, SseEvent::Heartbeat { timestamp: None }, "Failed to start stream: "@ + error@);
        }
        WorkerStep { updates, delivery: Delivery::SendAllThenStop }
    }

    /// The stream broke; `error` describes why. Both reports are sent and
    /// the worker stops.
    pub fn stream_error(&self, error: &str) -> (r: WorkerStep)
        ensures
            updates_view(r.updates@) == failure_updates(self.agent_idx, "Stream error: "@ + error@),
            r.delivery == Delivery::SendAllThenStop,
            forall|i: int|
                0 <= i < r.updates@.len() ==> update_agent(#[trigger] updates_view(r.updates@)[i])
                    == self.agent_idx,
    {
        let updates = self.stream_error_reports(error);
        proof {
            reports_name_their_agent(self.agent_idx, SseEvent::Heartbeat { timestamp: None }, "Stream error: "@ + error@);
        }
        WorkerStep { updates, delivery: Delivery::SendAllThenStop }
    }

    /// The stream closed: an error unless the run reported a status that
    /// ends it; the worker stops.
    pub fn stream_closed(&self) -> (r: WorkerStep)
        ensures
            updates_view(r.updates@) == (if self.has_terminal_status {
                Seq::empty()
            } else {
                seq![
                    UpdateView::StatusChange(
                        self.agent_idx,
                        StatusView::Error("Stream closed without terminal status"@),
                    ),
                ]
            }),
            r.delivery == Delivery::SendAllThenStop,
            forall|i: int|
                0 <= i < r.updates@.len() ==> update_agent(#[trigger] updates_view(r.updates@)[i])
                    == self.agent_idx,
    {
        WorkerStep { updates: self.stream_closed_reports(), delivery: Delivery::SendAllThenStop }
    }

    /// The reports of one event of the run; the run goes on unless one
    /// cannot be sent. A completion's result document is logged as its
    /// pretty-printed lines.
    pub fn on_event(&mut self, event: &SseEvent) -> (r: WorkerStep)
        ensures
            final(self).agent_idx == old(self).agent_idx,
            final(self).has_terminal_status == (old(self).has_terminal_status || (
            *event matches SseEvent::Complete { status, .. } && is_terminal(status))),
            updates_view(r.updates@) == event_updates(old(self).agent_idx, *event),
            r.delivery == Delivery::StopOnFailure,
            forall|i: int|
                0 <= i < r.updates@.len() ==> update_agent(#[trigger] updates_view(r.updates@)[i])
                    == old(self).agent_idx,
    {
        let rendered = render_document(event);
        let ghost idx = self.agent_idx;
        let updates = self.event_reports(event, rendered);
        proof {
            reports_name_their_agent(idx, *event, Seq::empty());
            assert forall|i: int| 0 <= i < updates@.len() implies update_agent(
                #[trigger] updates_view(updates@)[i],
            ) == idx by {
                assert(updates_view(updates@)[i] == event_updates(idx, *event)[i]);
            }
        }
        WorkerStep { updates, delivery: Delivery::StopOnFailure }
    }
}

// ── Dashboard keys ─────────────────────────────────────────────────────

/// The event is a press of Control-C.
pub open spec fn is_ctrl_c(event: Option<InputEvent>) -> bool {
    event matches Some(InputEvent::Key(k)) && k.is_press && k.ctrl && k.key == Key::Char('c')
}

/// Process one terminal event of the swarm dashboard: as
/// [`App::handle_event`], and Control-C quits too.
pub fn handle_swarm_event(app: &mut App, event: Option<InputEvent>)
    requires
        !next_overflows(old(app).selected, old(app).agents@.len(), event),
    ensures
        final(app).agents == old(app).agents,
        final(app).selected as int == after_event(
            old(app).selected,
            old(app).should_quit,
            old(app).agents@.len(),
            event,
        ).0,
        final(app).should_quit == (after_event(
            old(app).selected,
            old(app).should_quit,
            old(app).agents@.len(),
            event,
        ).1 || is_ctrl_c(event)),
{
    if let Some(InputEvent::Key(k)) = event {
        if k.is_press && k.ctrl {
            if let Key::Char('c') = k.key {
                app.should_quit = true;
            }
        }
    }
    app.handle_event(event);
}

// ── Single automation run ──────────────────────────────────────────────

/// What the CLI prints for one run.
#[derive(Debug, Clone)]
pub enum CliOutput {
    /// A progress line, dimmed, on standard error.
    Progress(String),
    /// The result document, on standard output.
    Result(String),
    /// An error, in red on standard error, after which the CLI exits with
    /// status 1.
    Fatal(String),
}

/// A line of output, with its text as characters.
pub enum CliOutputView {
    Progress(Seq<char>),
    Result(Seq<char>),
    Fatal(Seq<char>),
}

impl View for CliOutput {
    type V = CliOutputView;

    open spec fn view(&self) -> CliOutputView {
        match self {
            CliOutput::Progress(s) => CliOutputView::Progress(s@),
            CliOutput::Result(s) => CliOutputView::Result(s@),
            CliOutput::Fatal(s) => CliOutputView::Fatal(s@),
        }
    }
}

/// The output of one event of a single run: progress lines, and the result
/// document of the completion (`{}` without one); other events print
/// nothing.
pub open spec fn automation_output_view(event: SseEvent) -> Option<CliOutputView> {
    match event {
        SseEvent::Progress { purpose, message, .. } => match progress_line(
            or_empty(purpose),
            or_empty(message),
        ) {
            Some(l) => Some(CliOutputView::Progress(l)),
            None => None,
        },
        SseEvent::Complete { .. } => match rendered_doc(event) {
            Some(Ok(text)) => Some(CliOutputView::Result(text)),
            Some(Err(e)) => Some(CliOutputView::Fatal("Error formatting JSON: "@ + e)),
            None => Some(CliOutputView::Result("{}"@)),
        },
        _ => None,
    }
}

/// The output of one event of a single run.
pub fn automation_output(event: &SseEvent) -> (r: Option<CliOutput>)
    ensures
        (match r {
            Some(o) => Some(o@),
            None => None,
        }) == automation_output_view(*event),
{
    let rendered = render_document(event);
    match event {
        SseEvent::Progress { purpose, message, .. } => {
            match format_progress_line(purpose.clone(), message.clone()) {
                Some(l) => Some(CliOutput::Progress(l)),
                None => None,
            }
        },
        SseEvent::Complete { .. } => match rendered {
            Some(Ok(text)) => Some(CliOutput::Result(text)),
            Some(Err(e)) => Some(CliOutput::Fatal(concat("Error formatting JSON: ", e.as_str()))),
            None => Some(CliOutput::Result("{}".to_owned())),
        },
        _ => None,
    }
}

/// The output when the stream of a single run breaks; `error` describes why.
pub fn stream_error_output(error: &str) -> (r: CliOutput)
    ensures
        r@ == CliOutputView::Fatal("Stream error: "@ + error@),
{
    CliOutput::Fatal(concat("Stream error: ", error))
}

// ── Swarm setup ────────────────────────────────────────────────────────

/// The non-empty lines, trimmed, among the first `lines`.
pub open spec fn nonblank_trimmed(lines: Seq<Seq<char>>) -> Seq<Seq<char>>
    decreases lines.len(),
{
    if lines.len() == 0 {
        Seq::empty()
    } else {
        let rest = nonblank_trimmed(lines.drop_last());
        let t = trim_ws(lines.last());
        if t.len() > 0 {
            rest.push(t)
        } else {
            rest
        }
    }
}

/// The target URLs of a URL list: its lines, trimmed, without blank ones.
pub open spec fn url_list(contents: Seq<char>) -> Seq<Seq<char>> {
    nonblank_trimmed(lines_of(contents))
}

/// The target URLs listed in `contents`, one per line.
pub fn parse_url_list(contents: &str) -> (r: Vec<String>)
    ensures
        views_of(r@) == url_list(contents@),
{
    let lines = split_lines(contents);
    let ghost ls = views_of(lines@);
    let mut out: Vec<String> = Vec::new();
    let mut k: usize = 0;
    while k < lines.len()
        invariant
            k <= lines@.len(),
            ls == views_of(lines@),
            ls == lines_of(contents@),
            views_of(out@) == nonblank_trimmed(ls.take(k as int)),
        decreases lines.len() - k,
    {
        assert(ls.take(k + 1).drop_last() =~= ls.take(k as int));
        let t = trim(lines[k].as_str());
        if !t.as_str().is_empty() {
            let ghost before = out@;
            out.push(t);
            assert(views_of(out@) =~= views_of(before).push(t@));
        }
        k = k + 1;
    }
    assert(ls.take(lines@.len() as int) =~= ls);
    out
}

/// One pending agent per URL, all with the same goal.
pub fn swarm_agents(urls: &Vec<String>, goal: &String) -> (r: Vec<AgentState>)
    ensures
        r@.len() == urls@.len(),
        forall|j: int|
            0 <= j < r@.len() ==> {
                let a = #[trigger] r@[j];
                &&& a.url == urls@[j]
                &&& a.goal == *goal
                &&& a.status == AgentStatus::Pending
                &&& a.logs@ == Seq::<String>::empty()
                &&& a.progress == 0
            },
{
    let mut r: Vec<AgentState> = Vec::new();
    let mut k: usize = 0;
    while k < urls.len()
        invariant
            k <= urls@.len(),
            r@.len() == k,
            forall|j: int|
                0 <= j < k ==> {
                    let a = #[trigger] r@[j];
                    &&& a.url == urls@[j]
                    &&& a.goal == *goal
                    &&& a.status == AgentStatus::Pending
                    &&& a.logs@ == Seq::<String>::empty()
                    &&& a.progress == 0
                },
        decreases urls.len() - k,
    {
        r.push(AgentState::new(urls[k].clone(), goal.clone()));
        k = k + 1;
    }
    r
}

/// The message when a URL list names no target.
pub open spec fn no_urls_message(file_name: Seq<char>) -> Seq<char> {
    "No URLs found in "@ + file_name
}

/// The targets of the URL list `contents`, read from the file called
/// `file_name`: an error message naming the file when it lists none.
pub fn read_url_list(contents: &str, file_name: &str) -> (r: Result<Vec<String>, String>)
    ensures
        url_list(contents@).len() == 0 ==> (r matches Err(m) && m@ == no_urls_message(file_name@)),
        url_list(contents@).len() > 0 ==> (r matches Ok(urls) && views_of(urls@) == url_list(
            contents@,
        )),
{
    let urls = parse_url_list(contents);
    if urls.len() == 0 {
        Err(concat("No URLs found in ", file_name))
    } else {
        Ok(urls)
    }
}

/// The OpenAI key, when it is set to something other than white space.
pub fn usable_api_key(value: Option<String>) -> (r: Option<String>)
    ensures
        opt_view(r) == (match value {
            Some(v) => if trim_ws(v@).len() > 0 {
                Some(v@)
            } else {
                None
            },
            None => None,
        }),
{
    match value {
        Some(v) => {
            if trim(v.as_str()).as_str().is_empty() {
                None
            } else {
                Some(v)
            }
        },
        None => None,
    }
}

// ── Analysis input ─────────────────────────────────────────────────────

/// The report block of one agent: its URL, goal, status label and log.
pub open spec fn agent_report(a: AgentState) -> Seq<char> {
    "URL: "@ + a.url@ + "\nGoal: "@ + a.goal@ + "\nStatus: "@ + status_label(a.status)
        + "\nLogs:\n"@ + join_with(views_of(a.logs@), "\n"@)
}

/// The report blocks of the successful agents, in order.
pub open spec fn successful_reports(agents: Seq<AgentState>) -> Seq<Seq<char>>
    decreases agents.len(),
{
    if agents.len() == 0 {
        Seq::empty()
    } else {
        let rest = successful_reports(agents.drop_last());
        if agents.last().status is Success {
            rest.push(agent_report(agents.last()))
        } else {
            rest
        }
    }
}

/// The report block of one agent.
fn agent_report_text(a: &AgentState) -> (r: String)
    ensures
        r@ == agent_report(*a),
{
    let mut logs: Vec<String> = Vec::new();
    let mut k: usize = 0;
    while k < a.logs.len()
        invariant
            k <= a.logs@.len(),
            logs@ == a.logs@.take(k as int),
        decreases a.logs.len() - k,
    {
        logs.push(a.logs[k].clone());
        assert(a.logs@.take(k + 1) =~= a.logs@.take(k as int).push(a.logs@[k as int]));
        k = k + 1;
    }
    assert(a.logs@.take(k as int) =~= a.logs@);
    let joined = join_strings(&logs, "\n");
    let mut r = concat("URL: ", a.url.as_str());
    r.append("\nGoal: ");
    r.append(a.goal.as_str());
    r.append("\nStatus: ");
    r.append(a.status.label());
    r.append("\nLogs:\n");
    r.append(joined.as_str());
    r
}

/// The data handed to the analysis: the report blocks of the successful
/// agents, separated by `---` rules; none when no agent succeeded.
pub fn analysis_input(agents: &Vec<AgentState>) -> (r: Option<String>)
    ensures
        opt_view(r) == (if successful_reports(agents@).len() == 0 {
            None
        } else {
            Some(join_with(successful_reports(agents@), "\n\n---\n\n"@))
        }),
{
    let mut blocks: Vec<String> = Vec::new();
    let mut k: usize = 0;
    while k < agents.len()
        invariant
            k <= agents@.len(),
            views_of(blocks@) == successful_reports(agents@.take(k as int)),
        decreases agents.len() - k,
    {
        assert(agents@.take(k + 1).drop_last() =~= agents@.take(k as int));
        if let AgentStatus::Success = agents[k].status {
            let b = agent_report_text(&agents[k]);
            let ghost before = blocks@;
            blocks.push(b);
            assert(views_of(blocks@) =~= views_of(before).push(b@));
        }
        k = k + 1;
    }
    assert(agents@.take(agents@.len() as int) =~= agents@);
    if blocks.len() == 0 {
        None
    } else {
        Some(join_strings(&blocks, "\n\n---\n\n"))
    }
}

/// Trimming the front leaves nothing, or a first character that is not white
/// space.
proof fn lemma_trim_start_clean(s: Seq<char>)
    ensures
        trim_start_ws(s).len() == 0 || !is_white_space(trim_start_ws(s)[0]),
    decreases s.len(),
{
    if s.len() > 0 && is_white_space(s[0]) {
        lemma_trim_start_clean(s.drop_first());
    }
}

/// Trimming the end keeps a prefix, and leaves nothing or a last character
/// that is not white space.
proof fn lemma_trim_end_prefix(s: Seq<char>)
    ensures
        trim_end_ws(s).len() <= s.len(),
        trim_end_ws(s) == s.take(trim_end_ws(s).len() as int),
        trim_end_ws(s).len() == 0 || !is_white_space(trim_end_ws(s).last()),
    decreases s.len(),
{
    if s.len() > 0 && is_white_space(s.last()) {
        lemma_trim_end_prefix(s.drop_last());
        let t = trim_end_ws(s.drop_last());
        assert(s.drop_last().take(t.len() as int) =~= s.take(t.len() as int));
    } else {
        assert(s.take(s.len() as int) =~= s);
    }
}

/// Trimming a trimmed string changes nothing.
pub proof fn trim_is_idempotent(s: Seq<char>)
    ensures
        trim_ws(trim_ws(s)) == trim_ws(s),
{
    let t = trim_start_ws(s);
    let u = trim_end_ws(t);
    lemma_trim_start_clean(s);
    lemma_trim_end_prefix(t);
    if u.len() > 0 {
        assert(u[0] == t[0]);
    }
    assert(trim_start_ws(u) == u);
    assert(trim_end_ws(u) == u);
}

/// The kept lines are non-empty and trimmed.
proof fn lemma_nonblank_trimmed_clean(lines: Seq<Seq<char>>)
    ensures
        forall|i: int|
            0 <= i < nonblank_trimmed(lines).len() ==> {
                let u = #[trigger] nonblank_trimmed(lines)[i];
                u.len() > 0 && trim_ws(u) == u
            },
    decreases lines.len(),
{
    if lines.len() > 0 {
        lemma_nonblank_trimmed_clean(lines.drop_last());
        trim_is_idempotent(lines.last());
        let rest = nonblank_trimmed(lines.drop_last());
        let all = nonblank_trimmed(lines);
        assert forall|i: int| 0 <= i < all.len() implies {
            let u = #[trigger] all[i];
            u.len() > 0 && trim_ws(u) == u
        } by {
            if i < rest.len() {
                assert(all[i] == rest[i]);
            }
        }
    }
}

/// Each URL of a list is non-empty and has no white space at either end.
pub proof fn url_list_entries_are_trimmed(contents: Seq<char>)
    ensures
        forall|i: int|
            0 <= i < url_list(contents).len() ==> {
                let u = #[trigger] url_list(contents)[i];
                u.len() > 0 && trim_ws(u) == u
            },
{
    lemma_nonblank_trimmed_clean(lines_of(contents));
}

/// A log line never lowers progress that is at most 95, and progress stays
/// at most 100.
pub proof fn log_progress_is_monotone(p: u16)
    ensures
        p <= 95 ==> progress_after_log(p) >= p,
        progress_after_log(p) <= 95,
{
}

// ── Laws ───────────────────────────────────────────────────────────────

/// The analysis input is made of the successful agents only, one block per
/// successful agent, in order.
proof fn lemma_successful_reports_filter(
    agents: Seq<AgentState>,
    p: spec_fn(AgentState) -> bool,
    g: spec_fn(AgentState) -> Seq<char>,
)
    requires
        forall|a: AgentState| #[trigger] p(a) == (a.status is Success),
        forall|a: AgentState| #[trigger] g(a) == agent_report(a),
    ensures
        successful_reports(agents) == agents.filter(p).map_values(g),
    decreases agents.len(),
{
    reveal_with_fuel(Seq::<AgentState>::filter, 1);
    if agents.len() == 0 {
        assert(agents.filter(p).map_values(g) =~= Seq::<Seq<char>>::empty());
    } else {
        lemma_successful_reports_filter(agents.drop_last(), p, g);
        let sub = agents.drop_last().filter(p);
        if p(agents.last()) {
            assert(sub.push(agents.last()).map_values(g) =~= sub.map_values(g).push(g(agents.last())));
        }
    }
}

/// Only successful agents go into the analysis: its blocks are the reports
/// of exactly the agents whose status is `Success`, in their order, and an
/// agent in any other state contributes nothing.
pub proof fn analysis_blocks_are_the_successful_agents(agents: Seq<AgentState>)
    ensures
        successful_reports(agents) == agents.filter(|a: AgentState| a.status is Success).map_values(
            |a: AgentState| agent_report(a),
        ),
        successful_reports(agents).len() == agents.filter(|a: AgentState| a.status is Success).len(),
{
    let p = |a: AgentState| a.status is Success;
    let g = |a: AgentState| agent_report(a);
    lemma_successful_reports_filter(agents, p, g);
}

/// The URL list keeps every line that is not blank, trimmed, in order.
proof fn lemma_nonblank_trimmed_filter(
    lines: Seq<Seq<char>>,
    p: spec_fn(Seq<char>) -> bool,
    g: spec_fn(Seq<char>) -> Seq<char>,
)
    requires
        forall|l: Seq<char>| #[trigger] p(l) == (trim_ws(l).len() > 0),
        forall|l: Seq<char>| #[trigger] g(l) == trim_ws(l),
    ensures
        nonblank_trimmed(lines) == lines.filter(p).map_values(g),
    decreases lines.len(),
{
    reveal_with_fuel(Seq::<Seq<char>>::filter, 1);
    if lines.len() == 0 {
        assert(lines.filter(p).map_values(g) =~= Seq::<Seq<char>>::empty());
    } else {
        lemma_nonblank_trimmed_filter(lines.drop_last(), p, g);
        let sub = lines.drop_last().filter(p);
        if p(lines.last()) {
            assert(sub.push(lines.last()).map_values(g) =~= sub.map_values(g).push(g(lines.last())));
        }
    }
}

/// Every line of a URL file that is not blank yields one URL, its trimmed
/// text, in the order of the file, with no limit on their number.
pub proof fn every_listed_url_is_kept(contents: Seq<char>)
    ensures
        url_list(contents) == lines_of(contents).filter(|l: Seq<char>| trim_ws(l).len() > 0).map_values(
            |l: Seq<char>| trim_ws(l),
        ),
        url_list(contents).len() == lines_of(contents).filter(
            |l: Seq<char>| trim_ws(l).len() > 0,
        ).len(),
{
    let p = |l: Seq<char>| trim_ws(l).len() > 0;
    let g = |l: Seq<char>| trim_ws(l);
    lemma_nonblank_trimmed_filter(lines_of(contents), p, g);
}

/// The agent that a report is about.
pub open spec fn update_agent(u: UpdateView) -> usize {
    match u {
        UpdateView::Log(i, _) => i,
        UpdateView::StatusChange(i, _) => i,
    }
}

/// Every report of a worker is about its own agent, whatever the event or
/// failure.
pub proof fn reports_name_their_agent(idx: usize, event: SseEvent, m: Seq<char>)
    ensures
        forall|i: int|
            0 <= i < event_updates(idx, event).len() ==> update_agent(
                #[trigger] event_updates(idx, event)[i],
            ) == idx,
        forall|i: int|
            0 <= i < failure_updates(idx, m).len() ==> update_agent(
                #[trigger] failure_updates(idx, m)[i],
            ) == idx,
{
    assert forall|i: int|
        0 <= i < event_updates(idx, event).len() implies update_agent(
        #[trigger] event_updates(idx, event)[i],
    ) == idx by {
        if let SseEvent::Complete { status, .. } = event {
            let logs = result_logs(idx, rendered_doc(event));
            if i < logs.len() {
                assert(event_updates(idx, event)[i] == logs[i]);
            }
        }
    }
}

/// A single run prints the same progress line as a swarm worker logs for
/// the event, and nothing when the worker logs nothing.
pub proof fn run_output_matches_worker_log(idx: usize, event: SseEvent)
    requires
        event is Progress,
    ensures
        event_updates(idx, event).len() <= 1,
        event_updates(idx, event).len() == 0 <==> automation_output_view(event) is None,
        event_updates(idx, event).len() == 1 ==> (event_updates(idx, event)[0] matches UpdateView::Log(
            _,
            l,
        ) && automation_output_view(event) == Some(CliOutputView::Progress(l))),
{
}

/// A progress event with both a purpose and a message prints
/// `[purpose] message`; with only one of them, that one.
pub proof fn progress_output_shows_purpose_and_message(p: String, m: String, t: String)
    ensures
        p@.len() > 0 && m@.len() > 0 ==> automation_output_view(
            SseEvent::Progress { purpose: Some(p), message: Some(m), timestamp: t },
        ) == Some(CliOutputView::Progress("["@ + p@ + "] "@ + m@)),
        p@.len() > 0 ==> automation_output_view(
            SseEvent::Progress { purpose: Some(p), message: None, timestamp: t },
        ) == Some(CliOutputView::Progress(p@)),
        m@.len() > 0 ==> automation_output_view(
            SseEvent::Progress { purpose: None, message: Some(m), timestamp: t },
        ) == Some(CliOutputView::Progress(m@)),
{
}

} // verus!
