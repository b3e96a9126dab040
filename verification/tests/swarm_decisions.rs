use krill::swarm::{
    analysis_input, apply_agent_update, automation_output, format_progress_line,
    handle_swarm_event, parse_url_list, read_url_list, stream_error_output, swarm_agents,
    AgentUpdate, CliOutput, Delivery, SwarmWorker, usable_api_key,
};
use krill::tui::{AgentState, AgentStatus, App, InputEvent, Key, KeyPress};
use krill::error::KrillError;
use krill::types::{RunStatus, SseEvent};

fn doc(text: &str) -> serde_json::Value {
    serde_json::from_str(text).unwrap()
}

fn logs_of(updates: &[AgentUpdate]) -> Vec<String> {
    updates
        .iter()
        .map(|u| match u {
            AgentUpdate::Log(_, m) => format!("log {}", m),
            AgentUpdate::StatusChange(i, s) => format!("status {} {:?}", i, s),
        })
        .collect()
}

#[test]
fn progress_line_formats() {
    assert_eq!(format_progress_line(None, None), None);
    assert_eq!(format_progress_line(Some(String::new()), Some(String::new())), None);
    assert_eq!(format_progress_line(None, Some("msg".into())), Some("msg".to_string()));
    assert_eq!(format_progress_line(Some("p".into()), None), Some("p".to_string()));
    assert_eq!(
        format_progress_line(Some("nav".into()), Some("clicking".into())),
        Some("[nav] clicking".to_string())
    );
}

fn app_of(n: usize) -> App {
    App::new((0..n).map(|i| AgentState::new(format!("u{}", i), "g".to_string())).collect())
}

#[test]
fn log_update_advances_progress_to_95() {
    let mut app = app_of(2);
    for i in 0..25 {
        apply_agent_update(&mut app, AgentUpdate::Log(1, format!("l{}", i)));
    }
    assert_eq!(app.agents[1].progress, 95);
    assert_eq!(app.agents[1].logs.len(), 25);
    assert_eq!(app.agents[0].progress, 0);
    assert!(app.agents[0].logs.is_empty());
    apply_agent_update(&mut app, AgentUpdate::Log(0, "x".into()));
    assert_eq!(app.agents[0].progress, 5);
}

#[test]
fn success_sets_full_progress() {
    let mut app = app_of(1);
    apply_agent_update(&mut app, AgentUpdate::StatusChange(0, AgentStatus::Running));
    assert_eq!(app.agents[0].status, AgentStatus::Running);
    assert_eq!(app.agents[0].progress, 0);
    apply_agent_update(&mut app, AgentUpdate::StatusChange(0, AgentStatus::Success));
    assert_eq!(app.agents[0].status, AgentStatus::Success);
    assert_eq!(app.agents[0].progress, 100);
    apply_agent_update(&mut app, AgentUpdate::Log(0, "late".into()));
    assert_eq!(app.agents[0].progress, 95);
    assert!(app.agents[0].progress <= 100);
}

#[test]
fn updates_for_missing_agents_are_ignored() {
    let mut app = app_of(1);
    apply_agent_update(&mut app, AgentUpdate::Log(3, "x".into()));
    apply_agent_update(&mut app, AgentUpdate::StatusChange(9, AgentStatus::Success));
    assert_eq!(app.agents[0].progress, 0);
    assert_eq!(app.agents[0].status, AgentStatus::Pending);
}

#[test]
fn ctrl_c_quits_the_swarm_dashboard() {
    let mut app = app_of(2);
    handle_swarm_event(&mut app, Some(InputEvent::Key(KeyPress { key: Key::Char('c'), ctrl: false, is_press: true })));
    assert!(!app.should_quit);
    handle_swarm_event(&mut app, Some(InputEvent::Key(KeyPress { key: Key::Tab, ctrl: false, is_press: true })));
    assert_eq!(app.selected, 1);
    handle_swarm_event(&mut app, Some(InputEvent::Key(KeyPress { key: Key::Char('c'), ctrl: true, is_press: true })));
    assert!(app.should_quit);
}

#[test]
fn worker_reports_a_successful_run() {
    let mut w = SwarmWorker::new(4);
    assert_eq!(logs_of(&w.started().updates), vec!["status 4 Running".to_string()]);
    let started = SseEvent::Started { run_id: "r1".into(), timestamp: "t".into() };
    assert_eq!(logs_of(&w.on_event(&started).updates), vec!["log run_id: r1".to_string()]);
    let url = SseEvent::StreamingUrl { streaming_url: "https://s".into(), timestamp: "t".into() };
    assert_eq!(logs_of(&w.on_event(&url).updates), vec!["log stream: https://s".to_string()]);
    let progress = SseEvent::Progress { purpose: Some("p".into()), message: Some("m".into()), timestamp: "t".into() };
    assert_eq!(logs_of(&w.on_event(&progress).updates), vec!["log [p] m".to_string()]);
    let quiet = SseEvent::Progress { purpose: None, message: None, timestamp: "t".into() };
    assert!(w.on_event(&quiet).updates.is_empty());
    let beat = SseEvent::Heartbeat { timestamp: None };
    assert!(w.on_event(&beat).updates.is_empty());
    assert!(!w.has_terminal_status);
    let done = SseEvent::Complete {
        status: RunStatus::Completed,
        result_json: Some(doc("{\"a\": 1}")),
        timestamp: "t".into(),
    };
    let updates = w.on_event(&done).updates;
    assert_eq!(
        logs_of(&updates),
        vec![
            "log {".to_string(),
            "log   \"a\": 1".to_string(),
            "log }".to_string(),
            "status 4 Success".to_string()
        ]
    );
    assert!(w.has_terminal_status);
    assert!(w.stream_closed().updates.is_empty());
}

#[test]
fn worker_reports_failed_and_cancelled_runs() {
    let mut w = SwarmWorker::new(0);
    let failed = SseEvent::Complete { status: RunStatus::Failed, result_json: None, timestamp: "t".into() };
    assert_eq!(logs_of(&w.on_event(&failed).updates), vec!["status 0 Error(\"Run ended with Failed\")".to_string()]);
    let mut w2 = SwarmWorker::new(0);
    let cancelled = SseEvent::Complete { status: RunStatus::Cancelled, result_json: None, timestamp: "t".into() };
    assert_eq!(logs_of(&w2.on_event(&cancelled).updates), vec!["status 0 Error(\"Run ended with Cancelled\")".to_string()]);
    let mut w3 = SwarmWorker::new(0);
    let queued = SseEvent::Complete { status: RunStatus::Queued, result_json: None, timestamp: "t".into() };
    assert_eq!(logs_of(&w3.on_event(&queued).updates), vec!["status 0 Running".to_string()]);
    assert!(!w3.has_terminal_status);
    let queued_doc = SseEvent::Complete { status: RunStatus::Queued, result_json: Some(doc("null")), timestamp: "t".into() };
    assert_eq!(
        logs_of(&w3.on_event(&queued_doc).updates),
        vec!["log null".to_string(), "status 0 Running".to_string()]
    );
}

#[test]
fn worker_reports_stream_failures() {
    let w = SwarmWorker::new(2);
    assert_eq!(
        logs_of(&w.stream_failed("boom").updates),
        vec![
            "log Failed to start stream: boom".to_string(),
            "status 2 Error(\"Failed to start stream: boom\")".to_string()
        ]
    );
    assert_eq!(
        logs_of(&w.stream_error("cut").updates),
        vec!["log Stream error: cut".to_string(), "status 2 Error(\"Stream error: cut\")".to_string()]
    );
    assert_eq!(
        logs_of(&w.stream_closed().updates),
        vec!["status 2 Error(\"Stream closed without terminal status\")".to_string()]
    );
}

#[test]
fn single_run_output() {
    let progress = SseEvent::Progress { purpose: Some("p".into()), message: None, timestamp: "t".into() };
    assert!(matches!(automation_output(&progress), Some(CliOutput::Progress(l)) if l == "p"));
    let done = SseEvent::Complete { status: RunStatus::Completed, result_json: None, timestamp: "t".into() };
    assert!(matches!(automation_output(&done), Some(CliOutput::Result(t)) if t == "{}"));
    let with_doc = SseEvent::Complete { status: RunStatus::Completed, result_json: Some(doc("[]")), timestamp: "t".into() };
    assert!(matches!(automation_output(&with_doc), Some(CliOutput::Result(t)) if t == "[]"));
    let nested = SseEvent::Complete { status: RunStatus::Completed, result_json: Some(doc("{\"b\":[1,2],\"a\":null}")), timestamp: "t".into() };
    assert!(matches!(automation_output(&nested), Some(CliOutput::Result(t)) if t == "{\n  \"a\": null,\n  \"b\": [\n    1,\n    2\n  ]\n}"));
    let started = SseEvent::Started { run_id: "r".into(), timestamp: "t".into() };
    assert!(automation_output(&started).is_none());
    assert!(matches!(stream_error_output("x"), CliOutput::Fatal(t) if t == "Stream error: x"));
}

#[test]
fn url_list_is_trimmed_without_blank_lines() {
    let urls = parse_url_list("  https://a.example \n\n\t\r\nhttps://b.example\r\n\u{a0}https://c.example\u{3000}");
    assert_eq!(
        urls,
        vec!["https://a.example".to_string(), "https://b.example".to_string(), "https://c.example".to_string()]
    );
    assert!(parse_url_list("").is_empty());
    assert!(parse_url_list(" \n \n").is_empty());
}

#[test]
fn swarm_agents_share_the_goal() {
    let urls = vec!["a".to_string(), "b".to_string()];
    let agents = swarm_agents(&urls, &"goal".to_string());
    assert_eq!(agents.len(), 2);
    assert_eq!(agents[1].url, "b");
    assert_eq!(agents[0].goal, "goal");
    assert_eq!(agents[0].status, AgentStatus::Pending);
}

#[test]
fn analysis_input_joins_successful_agents() {
    let mut app = App::new(vec![
        AgentState::new("https://a".into(), "g".into()),
        AgentState::new("https://b".into(), "g".into()),
        AgentState::new("https://c".into(), "g".into()),
    ]);
    assert_eq!(analysis_input(&app.agents), None);
    apply_agent_update(&mut app, AgentUpdate::Log(0, "x".into()));
    apply_agent_update(&mut app, AgentUpdate::Log(0, "y".into()));
    apply_agent_update(&mut app, AgentUpdate::StatusChange(0, AgentStatus::Success));
    apply_agent_update(&mut app, AgentUpdate::StatusChange(1, AgentStatus::Error("e".into())));
    apply_agent_update(&mut app, AgentUpdate::StatusChange(2, AgentStatus::Success));
    assert_eq!(
        analysis_input(&app.agents),
        Some(
            "URL: https://a\nGoal: g\nStatus: ✔ Success\nLogs:\nx\ny\n\n---\n\nURL: https://c\nGoal: g\nStatus: ✔ Success\nLogs:\n"
                .to_string()
        )
    );
}

#[test]
fn worker_steps_say_how_to_deliver() {
    let mut w = SwarmWorker::new(0);
    assert_eq!(w.started().delivery, Delivery::StopOnFailure);
    let beat = SseEvent::Heartbeat { timestamp: None };
    assert_eq!(w.on_event(&beat).delivery, Delivery::StopOnFailure);
    assert_eq!(w.stream_failed("e").delivery, Delivery::SendAllThenStop);
    assert_eq!(w.stream_error("e").delivery, Delivery::SendAllThenStop);
    assert_eq!(w.stream_closed().delivery, Delivery::SendAllThenStop);
    assert!(Delivery::StopOnFailure.sends_rest(true));
    assert!(!Delivery::StopOnFailure.sends_rest(false));
    assert!(Delivery::SendAllThenStop.sends_rest(false));
    assert!(Delivery::StopOnFailure.keeps_running(true));
    assert!(!Delivery::StopOnFailure.keeps_running(false));
    assert!(!Delivery::SendAllThenStop.keeps_running(true));
}

#[test]
fn empty_url_list_is_an_error_naming_the_file() {
    assert_eq!(read_url_list(" \n\n", "targets.txt"), Err("No URLs found in targets.txt".to_string()));
    assert_eq!(read_url_list("a\n b \n", "targets.txt"), Ok(vec!["a".to_string(), "b".to_string()]));
}

#[test]
fn blank_api_keys_are_unusable() {
    assert_eq!(usable_api_key(None), None);
    assert_eq!(usable_api_key(Some("   \t".to_string())), None);
    assert_eq!(usable_api_key(Some(String::new())), None);
    assert_eq!(usable_api_key(Some(" sk-1 ".to_string())), Some(" sk-1 ".to_string()));
}

#[test]
fn error_messages() {
    assert_eq!(KrillError::ApiStatus { status: 404, body: "nope".into() }.message(), "API error (404): nope");
    assert_eq!(KrillError::SseUnexpectedEnd.message(), "SSE stream ended unexpectedly");
    assert_eq!(KrillError::MissingApiKey.message(), "Missing API key: set TINYFISH_API_KEY environment variable");
    assert_eq!(KrillError::InvalidUrl("x".into()).message(), "Invalid URL: x");
    assert_eq!(
        KrillError::AutomationFailed(krill::types::ApiError { message: "m".into(), help_url: None, help_message: None }).message(),
        "Automation failed: m"
    );
    let io = KrillError::Io(std::io::Error::new(std::io::ErrorKind::Other, "disk"));
    assert_eq!(io.message(), "I/O error: disk");
    let json_err = serde_json::from_str::<serde_json::Value>("{").unwrap_err();
    let text = json_err.to_string();
    assert_eq!(KrillError::Json(json_err).message(), format!("JSON error: {}", text));
}
