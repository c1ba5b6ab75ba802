use moh_desktop::pointer::Pointer;
use moh_desktop::request::{Rgb, XRequest};
use moh_desktop::session::{connect_decision, is_exit, socket_path, ConnectDecision, MAX_RETRIES};
use moh_desktop::ui::{action_topic, command_for, react, PayloadFields, UiCommand, UiReaction};
use moh_desktop::wm::{handle_event, handle_root_event, set_default_cursor, take_over_root, CursorManager, RootAction, WmAction, WmEvent};

#[test]
fn pointer_follows_events() {
    let mut p = Pointer::default();
    assert_eq!(handle_event(&mut p, WmEvent::MotionNotify { x: 5, y: 6, root_x: 50, root_y: 60 }), WmAction::Nothing);
    assert_eq!(p, Pointer { x: 5, y: 6, left_pressed: false });
    handle_event(&mut p, WmEvent::ButtonPress { x: 7, y: 8, root_x: 0, root_y: 0, button: 1 });
    assert_eq!(p, Pointer { x: 7, y: 8, left_pressed: true });
    handle_event(&mut p, WmEvent::Expose(3));
    assert_eq!(p, Pointer { x: 7, y: 8, left_pressed: true });
    handle_event(&mut p, WmEvent::ButtonRelease { x: 9, y: 10, button: 1 });
    assert_eq!(p, Pointer { x: 9, y: 10, left_pressed: false });
    assert_eq!(handle_event(&mut p, WmEvent::MapRequest(12)), WmAction::MapWindow(12));
    let mut q = Pointer::new();
    q.press();
    q.move_to(1, 2);
    assert!(q.left_pressed);
    q.release();
    assert_eq!(q, Pointer { x: 1, y: 2, left_pressed: false });
}

#[test]
fn simple_wm_reacts() {
    let mut p = Pointer::default();
    assert_eq!(handle_root_event(&mut p, WmEvent::ButtonPress { x: 20, y: 10, root_x: 20, root_y: 10, button: 1 }), RootAction::Exit);
    assert!(p.left_pressed);
    assert_eq!(handle_root_event(&mut p, WmEvent::ButtonPress { x: 150, y: 10, root_x: 0, root_y: 0, button: 1 }), RootAction::SpawnTerminal);
    assert_eq!(handle_root_event(&mut p, WmEvent::ButtonPress { x: 300, y: 10, root_x: 0, root_y: 0, button: 1 }), RootAction::Nothing);
    assert_eq!(handle_root_event(&mut p, WmEvent::MapRequest(4)), RootAction::MapWindow(4));
    assert_eq!(handle_root_event(&mut p, WmEvent::Expose(1)), RootAction::RedrawPanel);
    assert_eq!(handle_root_event(&mut p, WmEvent::Unknown), RootAction::Nothing);
}

#[test]
fn root_takeover_and_cursor() {
    let reqs = take_over_root(1, true);
    match &reqs[0] {
        XRequest::SelectEvents { window: 1, events } => assert!(events.substructure_redirect && events.property_change && events.structure_notify),
        other => panic!("unexpected {:?}", other),
    }
    match &take_over_root(1, false)[0] {
        XRequest::SelectEvents { events, .. } => assert!(events.button_release && !events.property_change),
        other => panic!("unexpected {:?}", other),
    }
    let reqs = set_default_cursor(1, 2, 3);
    assert!(matches!(&reqs[0], XRequest::OpenFont { font: 3, name } if name == b"cursor"));
    assert!(matches!(reqs[1], XRequest::CreateGlyphCursor { cursor: 2, font: 3, source_char: 68, mask_char: 69, fore: Rgb { red: 0, green: 0, blue: 0 }, back: Rgb { red: 65535, green: 65535, blue: 65535 } }));
    assert!(matches!(reqs[2], XRequest::SetCursor { window: 1, cursor: 2 }));
    let (manager, reqs) = CursorManager::new(1, 2, 3);
    assert_eq!(manager.cursor, 2);
    assert_eq!(reqs.len(), 6);
    assert!(matches!(reqs[4], XRequest::SetCursor { window: 1, cursor: 2 }));
    assert!(matches!(manager.set(9)[0], XRequest::SetCursor { window: 9, cursor: 2 }));
}

#[test]
fn connection_retries() {
    assert_eq!(connect_decision(1, true), ConnectDecision::Connected);
    assert_eq!(connect_decision(1, false), ConnectDecision::RetryAfter { delay_ms: 500 });
    assert_eq!(connect_decision(9, false), ConnectDecision::RetryAfter { delay_ms: 500 });
    assert_eq!(connect_decision(MAX_RETRIES, false), ConnectDecision::GiveUp);
    assert_eq!(connect_decision(MAX_RETRIES, true), ConnectDecision::Connected);
    let mut attempt = 1;
    while let ConnectDecision::RetryAfter { .. } = connect_decision(attempt, false) {
        attempt += 1;
    }
    assert_eq!(attempt, 10);
}

#[test]
fn socket_path_and_exit_topic() {
    assert_eq!(socket_path(Some("/run/user/1000")), "/run/user/1000/moh-event-hub.sock");
    assert_eq!(socket_path(None), "/tmp/moh-event-hub.sock");
    assert!(is_exit("system.exit"));
    assert!(!is_exit("system.exit2"));
}

fn fields(id: Option<u64>, title: Option<&str>, theme: Option<&str>) -> PayloadFields {
    PayloadFields { id, title: title.map(|s| s.to_string()), theme: theme.map(|s| s.to_string()) }
}

#[test]
fn ui_commands() {
    assert!(matches!(command_for("system.exit", fields(None, None, None)), Some(UiCommand::Exit)));
    match command_for("window.opened", fields(Some(5), Some("Files"), None)) {
        Some(UiCommand::WindowOpened { id: 5, title }) => assert_eq!(title, "Files"),
        other => panic!("unexpected {:?}", other),
    }
    match command_for("window.opened", fields(None, None, None)) {
        Some(UiCommand::WindowOpened { id: 0, title }) => assert_eq!(title, "Window"),
        other => panic!("unexpected {:?}", other),
    }
    assert!(matches!(command_for("window.closed", fields(Some((1u64 << 32) + 7), None, None)), Some(UiCommand::WindowClosed { id: 7 })));
    assert!(matches!(command_for("window.focused", fields(Some(3), None, None)), Some(UiCommand::WindowFocused { id: 3 })));
    match command_for("theme.change", fields(None, None, None)) {
        Some(UiCommand::ThemeChanged { theme }) => assert_eq!(theme, "dark"),
        other => panic!("unexpected {:?}", other),
    }
    assert!(command_for("wm.ping", fields(None, None, None)).is_none());
}

#[test]
fn ui_scripts() {
    match react(&UiCommand::WindowOpened { id: 1, title: "it's".to_string() }) {
        UiReaction::RunScript(js) => assert_eq!(js, "handleWMMessage({type: 'set_title', title: 'it\\'s'})"),
        other => panic!("unexpected {:?}", other),
    }
    match react(&UiCommand::WindowFocused { id: 1 }) {
        UiReaction::RunScript(js) => assert_eq!(js, "handleWMMessage({type: 'set_focus', focused: true})"),
        other => panic!("unexpected {:?}", other),
    }
    match react(&UiCommand::ThemeChanged { theme: "light".to_string() }) {
        UiReaction::RunScript(js) => assert_eq!(js, "handleWMMessage({type: 'set_theme', theme: 'light'})"),
        other => panic!("unexpected {:?}", other),
    }
    assert!(matches!(react(&UiCommand::Exit), UiReaction::Quit));
    assert!(matches!(react(&UiCommand::WindowClosed { id: 2 }), UiReaction::Nothing));
    let title = "a'b''c";
    match react(&UiCommand::WindowOpened { id: 1, title: title.to_string() }) {
        UiReaction::RunScript(js) => assert!(js.contains(&title.replace("'", "\\'"))),
        other => panic!("unexpected {:?}", other),
    }
}

#[test]
fn ui_action_topics() {
    assert_eq!(action_topic("close").as_deref(), Some("window.close_request"));
    assert_eq!(action_topic("minimize").as_deref(), Some("window.minimize_request"));
    assert_eq!(action_topic("maximize").as_deref(), Some("window.maximize_request"));
    assert_eq!(action_topic("move").as_deref(), Some("window.move_request"));
    assert_eq!(action_topic("resize").as_deref(), Some("window.resize_request"));
    assert_eq!(action_topic("drag_end").as_deref(), Some("window.drag_end"));
    assert_eq!(action_topic("explode"), None);
}

#[test]
fn pointer_after_a_series_of_events() {
    let mut p = Pointer { x: 1, y: 1, left_pressed: false };
    let events = [
        WmEvent::ButtonPress { x: 3, y: 4, root_x: 0, root_y: 0, button: 1 },
        WmEvent::MotionNotify { x: 8, y: 9, root_x: 0, root_y: 0 },
        WmEvent::Expose(2),
        WmEvent::MapRequest(5),
    ];
    for e in events {
        handle_event(&mut p, e);
    }
    assert_eq!(p, Pointer { x: 8, y: 9, left_pressed: true });
    let mut q = Pointer { x: 1, y: 1, left_pressed: true };
    for e in [WmEvent::Expose(1), WmEvent::Unknown, WmEvent::EnterNotify(3)] {
        handle_event(&mut q, e);
    }
    assert_eq!(q, Pointer { x: 1, y: 1, left_pressed: true });
}
