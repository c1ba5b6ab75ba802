use moh_desktop::client::{map_window, Client, ClientState};
use moh_desktop::dev_panel::{self, command_for_topic, react, PanelCommand, PanelEvent, PanelReaction};
use moh_desktop::frame::{Frame, FrameIds};
use moh_desktop::panel::{button_at, Panel, PanelButton};
use moh_desktop::request::{Rect, WindowChanges, XRequest};
use moh_desktop::theme::Theme;
use moh_desktop::wallpaper::{wallpaper_requests, WallpaperAtoms};

fn ids() -> FrameIds {
    FrameIds { window: 10, title_bar: 11, gc: 12, gc_btn_close: 13, gc_btn_min: 14, gc_btn_max: 15, gc_text: 16 }
}

#[test]
fn buttons_are_hit_on_their_rectangles() {
    assert_eq!(button_at(10, 5), PanelButton::Exit);
    assert_eq!(button_at(90, 25), PanelButton::Exit);
    assert_eq!(button_at(50, 15), PanelButton::Exit);
    assert_eq!(button_at(91, 15), PanelButton::Nothing);
    assert_eq!(button_at(100, 5), PanelButton::Terminal);
    assert_eq!(button_at(200, 25), PanelButton::Terminal);
    assert_eq!(button_at(201, 25), PanelButton::Nothing);
    assert_eq!(button_at(50, 4), PanelButton::Nothing);
    assert_eq!(button_at(50, 26), PanelButton::Nothing);
    assert_eq!(button_at(-5, -5), PanelButton::Nothing);
}

#[test]
fn panel_draws_its_buttons() {
    let panel = Panel::new(5, 6);
    let reqs = panel.draw();
    assert_eq!(reqs.len(), 5);
    match &reqs[0] {
        XRequest::FillRectangle { drawable: 5, gc: 6, rect } => assert_eq!(*rect, Rect { x: 10, y: 5, width: 80, height: 20 }),
        other => panic!("unexpected {:?}", other),
    }
    match &reqs[3] {
        XRequest::DrawText { x: 120, y: 20, text, .. } => assert_eq!(text, b"Terminal"),
        other => panic!("unexpected {:?}", other),
    }
    match &panel.create_requests(1, 1024)[0] {
        XRequest::CreateWindow { window: 5, parent: 1, rect, background_pixel: 0xffffff, events, override_redirect: false, visual: 0 } => {
            assert_eq!(*rect, Rect { x: 0, y: 0, width: 1024, height: 30 });
            assert!(events.exposure && events.button_press && !events.pointer_motion);
        }
        other => panic!("unexpected {:?}", other),
    }
}

#[test]
fn dev_panel_reacts() {
    assert_eq!(react(PanelEvent::Click { x: 20, y: 10 }), PanelReaction::PublishExitAndQuit);
    assert_eq!(react(PanelEvent::Click { x: 150, y: 10 }), PanelReaction::SpawnTerminal);
    assert_eq!(react(PanelEvent::Click { x: 95, y: 10 }), PanelReaction::Nothing);
    assert_eq!(react(PanelEvent::Expose), PanelReaction::Redraw);
    assert_eq!(react(PanelEvent::Timeout), PanelReaction::Idle { delay_ms: 10 });
    assert_eq!(react(PanelEvent::Unknown), PanelReaction::Nothing);
    assert_eq!(command_for_topic("system.exit"), Some(PanelCommand::Exit));
    assert_eq!(command_for_topic("panel.redraw"), Some(PanelCommand::Redraw));
    assert_eq!(command_for_topic("wm.created"), Some(PanelCommand::Redraw));
    assert_eq!(command_for_topic("wm.ping"), None);
    let p = dev_panel::Panel::new(1, 2, 3, 800);
    assert_eq!(p.height, 30);
    let draw = p.draw();
    assert!(matches!(draw[0], XRequest::FillRectangle { gc: 3, .. }));
    assert!(matches!(draw[2], XRequest::DrawText { gc: 2, .. }));
    let raise = p.raise();
    assert!(matches!(raise[0], XRequest::ConfigureWindow { window: 1, changes: WindowChanges { raise: true, x: None, .. } }));
    assert_eq!(p.create_requests(9).len(), 6);
}

#[test]
fn frame_wraps_the_client() {
    let frame = Frame::new(ids(), Theme::default());
    let reqs = frame.create_requests(1, 42, 100, 50, 640, 480);
    assert_eq!(reqs.len(), 13);
    match &reqs[0] {
        XRequest::CreateWindow { window: 10, parent: 1, rect, background_pixel, .. } => {
            assert_eq!(*rect, Rect { x: 100, y: 50, width: 640, height: 510 });
            assert_eq!(*background_pixel, 0x2d5da1);
        }
        other => panic!("unexpected {:?}", other),
    }
    assert!(matches!(reqs[3], XRequest::CreateGc { gc: 13, drawable: 11, foreground: 0xff5f57, background: None }));
    assert!(matches!(reqs[6], XRequest::CreateGc { gc: 16, foreground: 0xffffff, background: Some(0x2d5da1), .. }));
    assert!(matches!(reqs[7], XRequest::ReparentWindow { window: 42, parent: 10, x: 0, y: 30 }));
    assert!(matches!(reqs[8], XRequest::ConfigureWindow { window: 42, changes: WindowChanges { x: Some(0), y: Some(30), width: Some(640), height: Some(480), raise: false } }));
    assert!(matches!(reqs[12], XRequest::Flush));
}

#[test]
fn title_bar_layout() {
    let frame = Frame::new(ids(), Theme::default());
    let reqs = frame.draw("xterm");
    assert_eq!(reqs.len(), 5);
    let rect = |r: &XRequest| match r {
        XRequest::FillRectangle { rect, .. } => *rect,
        other => panic!("unexpected {:?}", other),
    };
    assert_eq!(rect(&reqs[0]), Rect { x: 8, y: 7, width: 16, height: 16 });
    assert_eq!(rect(&reqs[1]), Rect { x: 32, y: 7, width: 16, height: 16 });
    assert_eq!(rect(&reqs[2]), Rect { x: 56, y: 7, width: 16, height: 16 });
    match &reqs[3] {
        XRequest::DrawText { drawable: 11, gc: 16, x: 88, y: 20, text } => assert_eq!(text, b"xterm"),
        other => panic!("unexpected {:?}", other),
    }
}

#[test]
fn clients_keep_a_minimum_size() {
    let c = Client::new(7, 99, Rect { x: 3, y: 4, width: 100, height: 1000 });
    assert_eq!((c.x, c.y, c.width, c.height), (3, 4, 400, 1000));
    assert_eq!(c.state, ClientState::Normal);
    assert!(!c.focused);
    assert_eq!(c.frame, 0);
    let d = Client::new(7, 99, Rect { x: 0, y: 0, width: 500, height: 10 });
    assert_eq!((d.width, d.height), (500, 300));
}

#[test]
fn client_operations() {
    let mut c = Client::new(7, 99, Rect { x: 0, y: 0, width: 500, height: 500 });
    c.frame = 8;
    assert!(matches!(c.minimize_requests()[0], XRequest::UnmapWindow { window: 8 }));
    c.minimize();
    assert_eq!(c.state, ClientState::Minimized);
    assert!(matches!(c.restore_requests()[0], XRequest::MapWindow { window: 8 }));
    c.restore();
    assert_eq!(c.state, ClientState::Normal);
    let moved = c.move_to(-5, 6);
    assert_eq!((c.x, c.y), (-5, 6));
    assert!(matches!(moved[0], XRequest::ConfigureWindow { window: 8, changes: WindowChanges { x: Some(-5), y: Some(6), width: None, height: None, raise: false } }));
    let resized = c.resize(640, 480);
    assert_eq!((c.width, c.height), (640, 480));
    assert!(matches!(resized[0], XRequest::ConfigureWindow { window: 8, changes: WindowChanges { width: Some(640), height: Some(480), x: None, .. } }));
    assert!(matches!(c.focus_requests()[0], XRequest::SetInputFocus { window: 7 }));
    c.focus();
    assert!(c.focused);
    assert!(matches!(c.close_requests()[0], XRequest::SendDeleteWindow { window: 7, delete_atom: 99, time: 0 }));
}

#[test]
fn mapped_windows_are_placed() {
    let reqs = map_window(77);
    assert_eq!(reqs.len(), 4);
    assert!(matches!(reqs[0], XRequest::ConfigureWindow { window: 77, changes: WindowChanges { x: Some(200), y: Some(100), width: Some(800), height: Some(600), raise: false } }));
    assert!(matches!(reqs[1], XRequest::MapWindow { window: 77 }));
    assert!(matches!(reqs[2], XRequest::SetInputFocus { window: 77 }));
    assert!(matches!(reqs[3], XRequest::Flush));
}

#[test]
fn wallpaper_covers_the_screen() {
    let atoms = WallpaperAtoms {
        window_type: 1,
        window_type_desktop: 2,
        state: 3,
        state_below: 4,
        state_skip_taskbar: 5,
        state_skip_pager: 6,
    };
    let reqs = wallpaper_requests(9, 7, 33, 1920, 1080, atoms);
    assert_eq!(reqs.len(), 5);
    match &reqs[0] {
        XRequest::CreateWindow { window: 9, parent: 7, rect, background_pixel: 0x2b3a55, events, override_redirect: true, visual: 33 } => {
            assert_eq!(*rect, Rect { x: 0, y: 0, width: 1920, height: 1080 });
            assert!(events.exposure && events.structure_notify && !events.button_press);
        }
        other => panic!("unexpected {:?}", other),
    }
    assert!(matches!(&reqs[1], XRequest::SetAtomProperty { window: 9, property: 1, atoms } if atoms == &vec![2]));
    assert!(matches!(&reqs[2], XRequest::SetAtomProperty { window: 9, property: 3, atoms } if atoms == &vec![4, 5, 6]));
    assert!(matches!(reqs[3], XRequest::MapWindow { window: 9 }));
    assert!(matches!(reqs[4], XRequest::Flush));
}
