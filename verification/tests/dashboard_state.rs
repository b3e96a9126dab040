use krill::terminal::TerminalGuard;
use krill::tui::{AgentState, AgentStatus, App, Color, InputEvent, Key, KeyPress, MAX_LOG_LINES};

fn press(key: Key) -> Option<InputEvent> {
    Some(InputEvent::Key(KeyPress { key, ctrl: false, is_press: true }))
}

fn app_of(n: usize) -> App {
    App::new((0..n).map(|i| AgentState::new(format!("https://u{}", i), "g".to_string())).collect())
}

#[test]
fn status_labels_and_colors() {
    assert_eq!(AgentStatus::Pending.label(), "⏳ Pending");
    assert_eq!(AgentStatus::Running.label(), "▶ Running");
    assert_eq!(AgentStatus::Success.label(), "✔ Success");
    assert_eq!(AgentStatus::Error("x".into()).label(), "✖ Error");
    assert_eq!(AgentStatus::Pending.color(), Color::DarkGray);
    assert_eq!(AgentStatus::Running.color(), Color::Cyan);
    assert_eq!(AgentStatus::Success.color(), Color::Green);
    assert_eq!(AgentStatus::Error("x".into()).color(), Color::Red);
}

#[test]
fn new_agent_is_pending_and_empty() {
    let a = AgentState::new("https://a".to_string(), "goal".to_string());
    assert_eq!(a.url, "https://a");
    assert_eq!(a.goal, "goal");
    assert_eq!(a.status, AgentStatus::Pending);
    assert!(a.logs.is_empty());
    assert_eq!(a.progress, 0);
}

#[test]
fn push_log_keeps_the_most_recent_lines() {
    let mut a = AgentState::new("u".to_string(), "g".to_string());
    for i in 0..300 {
        a.push_log(format!("line {}", i));
        assert!(a.logs.len() <= MAX_LOG_LINES);
    }
    assert_eq!(a.logs.len(), 256);
    assert_eq!(a.logs.front().map(String::as_str), Some("line 44"));
    assert_eq!(a.logs.back().map(String::as_str), Some("line 299"));
}

#[test]
fn new_app_selects_first() {
    let app = app_of(3);
    assert_eq!(app.selected, 0);
    assert!(!app.should_quit);
    assert_eq!(app.agents.len(), 3);
}

#[test]
fn selection_cycles_forward_and_back() {
    let mut app = app_of(3);
    app.handle_event(press(Key::Tab));
    assert_eq!(app.selected, 1);
    app.handle_event(press(Key::Right));
    app.handle_event(press(Key::Down));
    assert_eq!(app.selected, 0);
    app.handle_event(press(Key::BackTab));
    assert_eq!(app.selected, 2);
    app.handle_event(press(Key::Left));
    app.handle_event(press(Key::Up));
    assert_eq!(app.selected, 0);
    assert!(!app.should_quit);
}

#[test]
fn previous_undoes_next_on_every_selection() {
    for n in 1..6 {
        for s in 0..n {
            let mut app = app_of(n);
            app.selected = s;
            app.handle_event(press(Key::Tab));
            assert!(app.selected < n);
            app.handle_event(press(Key::BackTab));
            assert_eq!(app.selected, s);
        }
    }
}

#[test]
fn quit_keys_and_ignored_events() {
    let mut app = app_of(2);
    app.handle_event(None);
    app.handle_event(Some(InputEvent::Other));
    app.handle_event(Some(InputEvent::Key(KeyPress { key: Key::Tab, ctrl: false, is_press: false })));
    app.handle_event(press(Key::Char('x')));
    assert_eq!(app.selected, 0);
    assert!(!app.should_quit);
    app.handle_event(press(Key::Char('q')));
    assert!(app.should_quit);
    let mut app2 = app_of(2);
    app2.handle_event(press(Key::Esc));
    assert!(app2.should_quit);
}

#[test]
fn navigation_without_agents_does_nothing() {
    let mut app = app_of(0);
    app.handle_event(press(Key::Tab));
    app.handle_event(press(Key::Up));
    assert_eq!(app.selected, 0);
}

#[test]
fn terminal_guard_hands_out_its_terminal() {
    let mut g = TerminalGuard::new(5i32);
    assert!(g.has_terminal());
    *g.terminal_mut() += 1;
    assert_eq!(*g.terminal_mut(), 6);
}
