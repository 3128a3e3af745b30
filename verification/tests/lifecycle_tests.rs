use justviewer::lifecycle::{
    calls_for, main_window, new_window, open_main_window, note_window_event, open_window_for_file, react, window_built,
    window_label, OpenPlan, PlatformCall, WindowEvent, WindowConfig, WindowState,
};
use justviewer::registry::SessionRegistry;

fn expected_window(label: &str, url: &str) -> WindowConfig {
    WindowConfig {
        label: label.to_string(),
        url: url.to_string(),
        title: "JustViewer".to_string(),
        width: 800,
        height: 600,
        resizable: true,
        visible: false,
    }
}

#[test]
fn window_label_joins_prefix_and_time() {
    assert_eq!(window_label(0), "window_0");
    assert_eq!(window_label(7), "window_7");
    assert_eq!(window_label(10), "window_10");
    assert_eq!(window_label(1700000000123), "window_1700000000123");
    assert_eq!(
        window_label(u128::MAX),
        "window_340282366920938463463374607431768211455"
    );
}

#[test]
fn new_window_has_the_fixed_shape() {
    let window = new_window("/a/b c.txt", 42);
    assert_eq!(window, expected_window("window_42", "?file=%2Fa%2Fb%20c.txt"));
}

#[test]
fn first_open_plans_a_new_window_and_records_nothing() {
    let mut registry = SessionRegistry::new();
    let plan = open_window_for_file(&mut registry, "/a", &Vec::new(), 1000);
    assert_eq!(
        plan,
        OpenPlan::Create { window: expected_window("window_1000", "?file=%2Fa") }
    );
    assert!(registry.is_empty());
}

#[test]
fn built_window_is_recorded_and_failed_one_is_not() {
    let mut registry = SessionRegistry::new();
    window_built(&mut registry, "/a", "window_1000", false);
    assert!(registry.is_empty());
    window_built(&mut registry, "/a", "window_1000", true);
    assert_eq!(registry.label_of("/a"), Some("window_1000".to_string()));
    assert_eq!(registry.len(), 1);
}

#[test]
fn second_open_reuses_the_live_window() {
    let mut registry = SessionRegistry::new();
    window_built(&mut registry, "/a", "window_1000", true);
    let live = vec!["window_1000".to_string()];
    let plan = open_window_for_file(&mut registry, "/a", &live, 2000);
    assert_eq!(plan, OpenPlan::Reuse { label: "window_1000".to_string() });
    assert_eq!(registry.label_of("/a"), Some("window_1000".to_string()));
}

#[test]
fn open_after_silent_destruction_plans_anew_and_drops_the_record() {
    let mut registry = SessionRegistry::new();
    window_built(&mut registry, "/a", "window_1000", true);
    let plan = open_window_for_file(&mut registry, "/a", &Vec::new(), 2000);
    assert_eq!(
        plan,
        OpenPlan::Create { window: expected_window("window_2000", "?file=%2Fa") }
    );
    assert!(registry.is_empty());
}

#[test]
fn close_then_reopen_reuses_the_same_window() {
    let mut registry = SessionRegistry::new();
    window_built(&mut registry, "/a", "window_1000", true);
    note_window_event(&mut registry, "/a", WindowEvent::CloseRequested);
    assert_eq!(registry.label_of("/a"), Some("window_1000".to_string()));
    let live = vec!["window_1000".to_string()];
    let plan = open_window_for_file(&mut registry, "/a", &live, 3000);
    assert_eq!(plan, OpenPlan::Reuse { label: "window_1000".to_string() });
}

#[test]
fn destruction_removes_only_its_own_record() {
    let mut registry = SessionRegistry::new();
    window_built(&mut registry, "/a", "window_1", true);
    window_built(&mut registry, "/b", "window_2", true);
    note_window_event(&mut registry, "/a", WindowEvent::Destroyed);
    assert_eq!(registry.label_of("/a"), None);
    assert_eq!(registry.label_of("/b"), Some("window_2".to_string()));
    assert_eq!(registry.len(), 1);
}

#[test]
fn other_window_events_leave_the_records() {
    let mut registry = SessionRegistry::new();
    window_built(&mut registry, "/a", "window_1", true);
    note_window_event(&mut registry, "/a", WindowEvent::Other);
    note_window_event(&mut registry, "/a", WindowEvent::Opened);
    note_window_event(&mut registry, "/a", WindowEvent::BuildFailed);
    note_window_event(&mut registry, "/a", WindowEvent::CloseRequested);
    assert_eq!(registry.label_of("/a"), Some("window_1".to_string()));
}

#[test]
fn repeated_opens_of_one_file_keep_one_window() {
    let mut registry = SessionRegistry::new();
    let mut live: Vec<String> = Vec::new();
    for now in 1..=20u128 {
        match open_window_for_file(&mut registry, "/a", &live, now) {
            OpenPlan::Reuse { label } => assert_eq!(label, "window_1"),
            OpenPlan::Create { window } => {
                assert_eq!(now, 1);
                live.push(window.label.clone());
                window_built(&mut registry, "/a", &window.label, true);
            }
        }
        assert_eq!(live.len(), 1);
        assert_eq!(registry.len(), 1);
    }
}

#[test]
fn failed_build_is_retried_only_by_the_next_request() {
    let mut registry = SessionRegistry::new();
    let live: Vec<String> = Vec::new();
    let first = open_window_for_file(&mut registry, "/a", &live, 1);
    assert!(matches!(first, OpenPlan::Create { .. }));
    window_built(&mut registry, "/a", "window_1", false);
    assert!(registry.is_empty());
    let second = open_window_for_file(&mut registry, "/a", &live, 2);
    assert_eq!(
        second,
        OpenPlan::Create { window: expected_window("window_2", "?file=%2Fa") }
    );
}

#[test]
fn absent_window_becomes_visible_when_opened() {
    let (next, calls) = react(WindowState::Absent, WindowEvent::Opened);
    assert_eq!(next, WindowState::Visible);
    assert_eq!(
        calls,
        vec![
            PlatformCall::ListenForEvents,
            PlatformCall::Activate,
            PlatformCall::Show,
            PlatformCall::Focus
        ]
    );
}

#[test]
fn absent_window_stays_absent_otherwise() {
    for event in [
        WindowEvent::BuildFailed,
        WindowEvent::CloseRequested,
        WindowEvent::Destroyed,
        WindowEvent::Other,
    ] {
        assert_eq!(react(WindowState::Absent, event), (WindowState::Absent, Vec::new()));
    }
}

#[test]
fn close_request_hides_and_never_destroys() {
    let expected = vec![PlatformCall::PreventClose, PlatformCall::Hide];
    assert_eq!(
        react(WindowState::Visible, WindowEvent::CloseRequested),
        (WindowState::Hidden, expected.clone())
    );
    assert_eq!(
        react(WindowState::Hidden, WindowEvent::CloseRequested),
        (WindowState::Hidden, expected)
    );
}

#[test]
fn hidden_window_comes_back_without_being_rebuilt() {
    let expected = vec![PlatformCall::Show, PlatformCall::Activate, PlatformCall::Focus];
    assert_eq!(
        react(WindowState::Hidden, WindowEvent::Opened),
        (WindowState::Visible, expected.clone())
    );
    assert_eq!(
        react(WindowState::Visible, WindowEvent::Opened),
        (WindowState::Visible, expected)
    );
}

#[test]
fn destruction_is_final() {
    assert_eq!(
        react(WindowState::Visible, WindowEvent::Destroyed),
        (WindowState::Destroyed, Vec::new())
    );
    assert_eq!(
        react(WindowState::Hidden, WindowEvent::Destroyed),
        (WindowState::Destroyed, Vec::new())
    );
    for event in [
        WindowEvent::Opened,
        WindowEvent::BuildFailed,
        WindowEvent::CloseRequested,
        WindowEvent::Destroyed,
        WindowEvent::Other,
    ] {
        assert_eq!(react(WindowState::Destroyed, event), (WindowState::Destroyed, Vec::new()));
    }
}

#[test]
fn unrelated_events_change_nothing() {
    for state in [WindowState::Visible, WindowState::Hidden] {
        assert_eq!(react(state, WindowEvent::Other), (state, Vec::new()));
        assert_eq!(react(state, WindowEvent::BuildFailed), (state, Vec::new()));
    }
}

#[test]
fn calls_follow_the_plan() {
    let reuse = OpenPlan::Reuse { label: "window_1".to_string() };
    assert_eq!(
        calls_for(&reuse),
        vec![PlatformCall::Show, PlatformCall::Activate, PlatformCall::Focus]
    );
    let create = OpenPlan::Create { window: new_window("/a", 1) };
    assert_eq!(
        calls_for(&create),
        vec![
            PlatformCall::ListenForEvents,
            PlatformCall::Activate,
            PlatformCall::Show,
            PlatformCall::Focus
        ]
    );
}

#[test]
fn main_window_is_labelled_main() {
    assert_eq!(main_window(), expected_window("main", "index.html"));
}

#[test]
fn main_window_is_built_once_and_reused_after() {
    assert_eq!(
        open_main_window(&Vec::new()),
        OpenPlan::Create { window: expected_window("main", "index.html") }
    );
    assert_eq!(
        open_main_window(&vec!["window_1".to_string()]),
        OpenPlan::Create { window: expected_window("main", "index.html") }
    );
    assert_eq!(
        open_main_window(&vec!["window_1".to_string(), "main".to_string()]),
        OpenPlan::Reuse { label: "main".to_string() }
    );
}
