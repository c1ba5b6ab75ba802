use vstd::prelude::*;
use crate::panel::{button_at, button_requests, button_under, draws_buttons, PanelButton, PANEL_HEIGHT};
use crate::request::{EventSelection, Rect, WindowChanges, XRequest};
use crate::text::str_eq;

verus! {

broadcast use vstd::string::group_string_axioms;

/// What the panel program learns from the X server.
#[derive(Debug, Clone, Copy, PartialEq, Eq)]
pub enum PanelEvent {
    /// A button press at (`x`, `y`) in panel coordinates.
    Click { x: i16, y: i16 },
    /// The panel needs redrawing.
    Expose,
    /// Some other event.
    Unknown,
    /// No event was waiting.
    Timeout,
}

/// How long the panel program waits after a poll that found no event.
pub const IDLE_DELAY_MS: u64 = 10;

/// What the panel program does in answer to an event.
#[derive(Debug, Clone, Copy, PartialEq, Eq)]
pub enum PanelReaction {
    /// Tell the desktop to exit, then exit.
    PublishExitAndQuit,
    /// Start a terminal.
    SpawnTerminal,
    /// Draw the panel again.
    Redraw,
    /// Wait `delay_ms` milliseconds before polling again.
    Idle { delay_ms: u64 },
    Nothing,
}

/// A command the panel program receives through the event hub.
#[derive(Debug, Clone, Copy, PartialEq, Eq)]
pub enum PanelCommand {
    Redraw,
    Exit,
}

/// The panel's answer to one event.
pub fn react(event: PanelEvent) -> (r: PanelReaction)
    ensures
        match event {
            PanelEvent::Click { x, y } => r == (match button_under(x as int, y as int) {
                PanelButton::Exit => PanelReaction::PublishExitAndQuit,
                PanelButton::Terminal => PanelReaction::SpawnTerminal,
                PanelButton::Nothing => PanelReaction::Nothing,
            }),
            PanelEvent::Expose => r == PanelReaction::Redraw,
            PanelEvent::Unknown => r == PanelReaction::Nothing,
            PanelEvent::Timeout => r == (PanelReaction::Idle { delay_ms: IDLE_DELAY_MS }),
        },
{
    match event {
        PanelEvent::Click { x, y } => match button_at(x, y) {
            PanelButton::Exit => PanelReaction::PublishExitAndQuit,
            PanelButton::Terminal => PanelReaction::SpawnTerminal,
            PanelButton::Nothing => PanelReaction::Nothing,
        },
        PanelEvent::Expose => PanelReaction::Redraw,
        PanelEvent::Unknown => PanelReaction::Nothing,
        PanelEvent::Timeout => PanelReaction::Idle { delay_ms: IDLE_DELAY_MS },
    }
}

/// The command that a hub message on `topic` carries for the panel, if any.
pub fn command_for_topic(topic: &str) -> (c: Option<PanelCommand>)
    ensures
        topic@ == "system.exit"@ ==> c == Some(PanelCommand::Exit),
        (topic@ == "panel.redraw"@ || topic@ == "wm.created"@) ==> c == Some(PanelCommand::Redraw),
        topic@ != "system.exit"@ && topic@ != "panel.redraw"@ && topic@ != "wm.created"@ ==> c is None,
{
    proof {
        reveal_strlit("system.exit");
        reveal_strlit("panel.redraw");
        reveal_strlit("wm.created");
        assert("panel.redraw"@.len() != "system.exit"@.len());
        assert("wm.created"@.len() != "system.exit"@.len());
    }
    if str_eq(topic, "system.exit") {
        Some(PanelCommand::Exit)
    } else if str_eq(topic, "panel.redraw") || str_eq(topic, "wm.created") {
        Some(PanelCommand::Redraw)
    } else {
        None
    }
}

/// The panel of the developer build: a dark strip above all other windows.
#[derive(Debug, Clone, Copy)]
pub struct Panel {
    pub window: u32,
    pub gc: u32,
    pub gc_bg: u32,
    pub width: u16,
    pub height: u16,
}

impl Panel {
    /// A panel `width` pixels wide with the given window and graphics context ids.
    pub fn new(window: u32, gc: u32, gc_bg: u32, width: u16) -> (p: Panel)
        ensures
            p.window == window,
            p.gc == gc,
            p.gc_bg == gc_bg,
            p.width == width,
            p.height == PANEL_HEIGHT,
    {
        Panel { window, gc, gc_bg, width, height: PANEL_HEIGHT }
    }

    /// The requests that create the panel on `root`, show it and raise it: a
    /// dark window that the window manager leaves alone, a light text context
    /// and a grey button context.
    pub fn create_requests(&self, root: u32) -> (reqs: Vec<XRequest>)
        ensures
            reqs@ == seq![
                XRequest::CreateWindow {
                    window: self.window,
                    parent: root,
                    rect: Rect { x: 0, y: 0, width: self.width, height: self.height },
                    background_pixel: 0x333333,
                    events: EventSelection { exposure: true, button_press: true, ..EventSelection::none_spec() },
                    override_redirect: true,
                    visual: 0,
                },
                XRequest::CreateGc { gc: self.gc, drawable: self.window, foreground: 0xffffff, background: Some(0x333333u32) },
                XRequest::CreateGc { gc: self.gc_bg, drawable: self.window, foreground: 0x555555, background: Some(0x333333u32) },
                XRequest::MapWindow { window: self.window },
                XRequest::ConfigureWindow { window: self.window, changes: WindowChanges::raise_only_spec() },
                XRequest::Flush,
            ],
    {
        let mut events = EventSelection::none();
        events.exposure = true;
        events.button_press = true;
        let mut reqs: Vec<XRequest> = Vec::new();
        reqs.push(XRequest::CreateWindow {
            window: self.window,
            parent: root,
            rect: Rect { x: 0, y: 0, width: self.width, height: self.height },
            background_pixel: 0x333333,
            events,
            override_redirect: true,
            visual: 0,
        });
        reqs.push(XRequest::CreateGc { gc: self.gc, drawable: self.window, foreground: 0xffffff, background: Some(0x333333) });
        reqs.push(XRequest::CreateGc { gc: self.gc_bg, drawable: self.window, foreground: 0x555555, background: Some(0x333333) });
        reqs.push(XRequest::MapWindow { window: self.window });
        reqs.push(XRequest::ConfigureWindow { window: self.window, changes: WindowChanges::raise_only() });
        reqs.push(XRequest::Flush);
        assert(reqs@ =~= seq![
                XRequest::CreateWindow {
                    window: self.window,
                    parent: root,
                    rect: Rect { x: 0, y: 0, width: self.width, height: self.height },
                    background_pixel: 0x333333,
                    events: EventSelection { exposure: true, button_press: true, ..EventSelection::none_spec() },
                    override_redirect: true,
                    visual: 0,
                },
                XRequest::CreateGc { gc: self.gc, drawable: self.window, foreground: 0xffffff, background: Some(0x333333u32) },
                XRequest::CreateGc { gc: self.gc_bg, drawable: self.window, foreground: 0x555555, background: Some(0x333333u32) },
                XRequest::MapWindow { window: self.window },
                XRequest::ConfigureWindow { window: self.window, changes: WindowChanges::raise_only_spec() },
                XRequest::Flush,
            ]);
        reqs
    }

    /// The requests that draw the buttons (grey) and their labels (light).
    pub fn draw(&self) -> (reqs: Vec<XRequest>)
        ensures
            draws_buttons(reqs@, self.window, self.gc_bg, self.gc),
    {
        button_requests(self.window, self.gc_bg, self.gc)
    }

    /// The requests that put the panel above all other windows.
    pub fn raise(&self) -> (reqs: Vec<XRequest>)
        ensures
            reqs@ == seq![
                XRequest::ConfigureWindow { window: self.window, changes: WindowChanges::raise_only_spec() },
                XRequest::Flush,
            ],
    {
        let mut reqs: Vec<XRequest> = Vec::new();
        reqs.push(XRequest::ConfigureWindow { window: self.window, changes: WindowChanges::raise_only() });
        reqs.push(XRequest::Flush);
        assert(reqs@ =~= seq![
                XRequest::ConfigureWindow { window: self.window, changes: WindowChanges::raise_only_spec() },
                XRequest::Flush,
            ]);
        reqs
    }
}

} // verus!
