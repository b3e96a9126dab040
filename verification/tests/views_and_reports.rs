use krill::analyze::{analysis_request, report_content, ANALYSIS_MODEL, ANALYSIS_SYSTEM_PROMPT, MISSING_REPORT};
use krill::dashboard::{
    decimal_string, detail_title, footer_text, gauge_color, percent_label, roster_line,
    status_counts, telemetry_url, truncate, visible_log,
};
use krill::swarm::{apply_agent_update, AgentUpdate};
use krill::text::{join_strings, split_lines, starts_with, strip_leading_spaces, trim};
use krill::tui::{AgentState, AgentStatus, App, Color};
use krill::types::{automation_request, JsonValue};

#[test]
fn truncate_cuts_and_marks() {
    assert_eq!(truncate("abc", 3), "abc");
    assert_eq!(truncate("abc", 10), "abc");
    assert_eq!(truncate("abcdef", 4), "abc…");
    assert_eq!(truncate("abcdef", 1), "…");
    assert_eq!(truncate("", 0), "");
    assert_eq!(truncate("héllo", 4), "hél…");
    assert_eq!(truncate("ééé", 3), "ééé");
    assert_eq!(truncate("éééé", 3), "éé…");
    let long = "https://example.com/a/very/long/path";
    assert!(truncate(long, 10).chars().count() <= 10);
}

#[test]
fn decimal_notation() {
    assert_eq!(decimal_string(0), "0");
    assert_eq!(decimal_string(7), "7");
    assert_eq!(decimal_string(10), "10");
    assert_eq!(decimal_string(12345), "12345");
    assert_eq!(decimal_string(u64::MAX), u64::MAX.to_string());
    assert_eq!(percent_label(95), "95%");
}

fn sample_app() -> App {
    let mut app = App::new(vec![
        AgentState::new("https://a".into(), "g".into()),
        AgentState::new("https://b".into(), "g".into()),
        AgentState::new("https://c".into(), "g".into()),
        AgentState::new("https://d".into(), "g".into()),
    ]);
    apply_agent_update(&mut app, AgentUpdate::StatusChange(0, AgentStatus::Running));
    apply_agent_update(&mut app, AgentUpdate::StatusChange(1, AgentStatus::Success));
    apply_agent_update(&mut app, AgentUpdate::StatusChange(2, AgentStatus::Error("e".into())));
    app
}

#[test]
fn footer_counts_agents() {
    let app = sample_app();
    assert_eq!(status_counts(&app.agents), (1, 1, 1));
    assert_eq!(footer_text(&app), "agents: 4 │ ▶ 1 │ ✔ 1 │ ✖ 1 ");
}

#[test]
fn roster_lines() {
    let app = sample_app();
    let sel = roster_line(&app.agents[0], true, 40);
    assert_eq!(sel.text, " ▶ https://a");
    assert_eq!(sel.color, Color::Yellow);
    assert!(sel.bold);
    let other = roster_line(&app.agents[2], false, 9);
    assert_eq!(other.text, " ✖ ht…");
    assert_eq!(other.color, Color::Red);
    assert!(!other.bold);
}

#[test]
fn detail_pane_texts() {
    let mut app = sample_app();
    assert_eq!(detail_title(&app.agents[1]), " https://b — ✔ Success ");
    for i in 0..5 {
        apply_agent_update(&mut app, AgentUpdate::Log(3, format!("l{}", i)));
    }
    assert_eq!(visible_log(&app.agents[3], 2), "l3\nl4");
    assert_eq!(visible_log(&app.agents[3], 10), "l0\nl1\nl2\nl3\nl4");
    assert_eq!(visible_log(&app.agents[3], 0), "");
    assert_eq!(gauge_color(&AgentStatus::Success), Color::Green);
    assert_eq!(gauge_color(&AgentStatus::Error("x".into())), Color::Red);
    assert_eq!(gauge_color(&AgentStatus::Pending), Color::Yellow);
    assert_eq!(telemetry_url(&app.agents[0], 14), "htt…");
}

#[test]
fn text_helpers() {
    assert_eq!(split_lines("a\r\nb\n\nc\r"), vec!["a", "b", "", "c\r"]);
    assert_eq!(split_lines(""), Vec::<String>::new());
    assert_eq!(split_lines("x\n"), vec!["x"]);
    assert_eq!(trim(" \u{2003}ä b\t\n"), "ä b");
    assert_eq!(trim("   "), "");
    assert!(starts_with("data: x", "data:"));
    assert!(!starts_with("dat", "data:"));
    assert_eq!(strip_leading_spaces("   x y"), "x y");
    assert_eq!(strip_leading_spaces("\tx"), "\tx");
    assert_eq!(join_strings(&vec!["a".to_string(), "b".to_string()], ", "), "a, b");
    assert_eq!(join_strings(&Vec::new(), ", "), "");
}

#[test]
fn analysis_request_payload() {
    let r = analysis_request("DATA");
    assert_eq!(r.model, ANALYSIS_MODEL);
    assert_eq!(r.model, "gpt-4o-mini");
    assert_eq!(r.messages.len(), 2);
    assert_eq!(r.messages[0].role, "system");
    assert_eq!(r.messages[0].content, ANALYSIS_SYSTEM_PROMPT);
    assert_eq!(r.messages[1].role, "user");
    assert_eq!(r.messages[1].content, "DATA");
}

fn obj(members: Vec<(&str, JsonValue)>) -> JsonValue {
    JsonValue::Object(members.into_iter().map(|(k, v)| (k.to_string(), v)).collect())
}

#[test]
fn report_content_reads_first_choice() {
    let response = obj(vec![
        ("id", JsonValue::String("x".into())),
        (
            "choices",
            JsonValue::Array(vec![
                obj(vec![("message", obj(vec![("role", JsonValue::String("assistant".into())), ("content", JsonValue::String("# Report".into()))]))]),
                obj(vec![("message", obj(vec![("content", JsonValue::String("second".into()))]))]),
            ]),
        ),
    ]);
    assert_eq!(report_content(&response), Ok("# Report".to_string()));
}

#[test]
fn report_content_missing_cases() {
    let missing = Err(MISSING_REPORT.to_string());
    assert_eq!(report_content(&JsonValue::Null), missing);
    assert_eq!(report_content(&obj(vec![("choices", JsonValue::Array(vec![]))])), missing);
    let not_text = obj(vec![(
        "choices",
        JsonValue::Array(vec![obj(vec![("message", obj(vec![("content", JsonValue::Null)]))])]),
    )]);
    assert_eq!(report_content(&not_text), missing);
    let not_array = obj(vec![("choices", obj(vec![("0", JsonValue::Null)]))]);
    assert_eq!(report_content(&not_array), missing);
}

#[test]
fn automation_request_defaults() {
    let r = automation_request("https://a".into(), "g".into());
    assert_eq!(r.url, "https://a");
    assert_eq!(r.goal, "g");
    assert!(r.browser_profile.is_none());
    assert!(r.proxy_config.is_none());
    assert!(r.api_integration.is_none());
    assert!(r.feature_flags.is_none());
}

#[test]
fn trimming_twice_is_trimming_once() {
    for s in ["  a b  ", "\u{3000}x\u{85}", "", "   ", "abc"] {
        let once = trim(s);
        assert_eq!(trim(&once), once);
    }
}
