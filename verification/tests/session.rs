use window_session::controller::Controller;
use window_session::controller::LogEntry;
use window_session::controller::SessionEvent;
use window_session::controller::StartCause;
use window_session::controller::WindowLabel;
use window_session::controller::WindowRole;
use window_session::style::style_rules;
use window_session::style::window_config;

fn activated() -> Controller {
    let mut c = Controller::new();
    c.attach_window(WindowRole::Primary, 1);
    c.attach_window(WindowRole::Secondary, 2);
    c
}

#[test]
fn two_window_activation_creates_both_roles() {
    let mut c = Controller::new();
    let plan = c.activation_requests();
    assert_eq!(plan, vec![WindowRole::Primary, WindowRole::Secondary]);
    c.attach_window(WindowRole::Primary, 10);
    c.attach_window(WindowRole::Secondary, 20);
    assert_eq!(c.primary, Some(10));
    assert_eq!(c.secondary, Some(20));
    assert!(!c.terminated);
}

#[test]
fn activation_is_idempotent() {
    let mut c = Controller::new();
    c.attach_window(WindowRole::Primary, 10);
    let plan = c.activation_requests();
    assert_eq!(plan, vec![WindowRole::Secondary]);
    c.attach_window(WindowRole::Secondary, 20);
    assert_eq!(c.activation_requests(), vec![]);
    assert_eq!(activated().activation_requests(), vec![]);
}

#[test]
fn window_configs_match_roles() {
    let main = window_config(WindowRole::Primary);
    assert_eq!(main.title, "Main Window");
    assert!(main.resizable);
    let child = window_config(WindowRole::Secondary);
    assert_eq!(child.title, "Child Window");
    assert!(child.resizable);
}

#[test]
fn primary_style_table() {
    let rules = style_rules(WindowRole::Primary);
    let got: Vec<(&str, &str)> = rules.iter().map(|r| (r.name, r.value)).collect();
    assert_eq!(
        got,
        vec![
            ("width", "100%"),
            ("height", "100%"),
            ("position", "absolute"),
            ("top", "10px"),
            ("left", "10px"),
        ]
    );
}

#[test]
fn secondary_style_table() {
    let rules = style_rules(WindowRole::Secondary);
    let got: Vec<(&str, &str)> = rules.iter().map(|r| (r.name, r.value)).collect();
    assert_eq!(
        got,
        vec![
            ("width", "25%"),
            ("height", "25%"),
            ("position", "absolute"),
            ("top", "60px"),
            ("left", "60px"),
            ("border", "1px solid black"),
        ]
    );
}

#[test]
fn close_on_primary_clears_all_and_exits() {
    let mut c = activated();
    let r = c.on_window_event(1, SessionEvent::CloseRequested);
    assert_eq!(r.label, WindowLabel::Primary);
    assert_eq!(r.label.text(), "Main");
    assert_eq!(r.log, Some(LogEntry::CloseRequested));
    assert!(r.exit);
    assert!(!r.redraw_primary && !r.redraw_secondary);
    assert_eq!(c.primary, None);
    assert_eq!(c.secondary, None);
    assert!(c.terminated);
}

#[test]
fn close_on_secondary_also_clears_all() {
    let mut c = activated();
    let r = c.on_window_event(2, SessionEvent::CloseRequested);
    assert_eq!(r.label, WindowLabel::Secondary);
    assert!(r.exit);
    assert_eq!(c.primary, None);
    assert_eq!(c.secondary, None);
    assert!(c.terminated);
}

#[test]
fn resize_on_secondary_redraws_only_secondary() {
    let mut c = activated();
    let r = c.on_window_event(2, SessionEvent::Resized(640, 480));
    assert_eq!(r.label, WindowLabel::Secondary);
    assert_eq!(r.label.text(), "Child");
    assert_eq!(r.log, Some(LogEntry::Resized(640, 480)));
    assert!(r.redraw_secondary);
    assert!(!r.redraw_primary);
    assert!(!r.exit);
    assert!(!c.terminated);
    assert_eq!(c.primary, Some(1));
    assert_eq!(c.secondary, Some(2));
}

#[test]
fn resize_on_primary_redraws_only_primary() {
    let mut c = activated();
    let r = c.on_window_event(1, SessionEvent::Resized(800, 600));
    assert_eq!(r.label, WindowLabel::Primary);
    assert_eq!(r.log, Some(LogEntry::Resized(800, 600)));
    assert!(r.redraw_primary);
    assert!(!r.redraw_secondary);
}

#[test]
fn unknown_handle_gets_unknown_label_and_no_redraw() {
    let mut c = activated();
    let r = c.on_window_event(99, SessionEvent::Resized(100, 100));
    assert_eq!(r.label, WindowLabel::Unknown);
    assert_eq!(r.label.text(), "Unknown");
    assert!(!r.redraw_primary && !r.redraw_secondary);
    assert!(!r.exit);
    let r2 = c.on_window_event(99, SessionEvent::RedrawRequested);
    assert_eq!(r2.label, WindowLabel::Unknown);
    assert_eq!(r2.log, Some(LogEntry::RedrawRequested));
}

#[test]
fn redraw_requested_only_logs() {
    let mut c = activated();
    let r = c.on_window_event(1, SessionEvent::RedrawRequested);
    assert_eq!(r.label, WindowLabel::Primary);
    assert_eq!(r.log, Some(LogEntry::RedrawRequested));
    assert!(!r.redraw_primary && !r.redraw_secondary && !r.exit);
    assert_eq!(c.primary, Some(1));
}

#[test]
fn other_events_are_ignored() {
    let mut c = activated();
    let r = c.on_window_event(1, SessionEvent::Other);
    assert_eq!(r.log, None);
    assert!(!r.redraw_primary && !r.redraw_secondary && !r.exit);
    assert_eq!(c.primary, Some(1));
    assert_eq!(c.secondary, Some(2));
    assert!(!c.terminated);
}

#[test]
fn init_logs_exactly_on_startup_cause() {
    let c = Controller::new();
    assert!(c.on_new_events(StartCause::Init));
    assert!(!c.on_new_events(StartCause::Other));
}

#[test]
fn each_matching_resize_issues_one_redraw() {
    let mut c = activated();
    let mut redraws: usize = 0;
    for handle in [1u64, 2, 2, 99, 1] {
        let r = c.on_window_event(handle, SessionEvent::Resized(320, 200));
        redraws += usize::from(r.redraw_primary) + usize::from(r.redraw_secondary);
    }
    assert_eq!(redraws, 4);
}
