use vstd::prelude::*;
use crate::request::{
    draws_text, exit_label, exit_label_bytes, terminal_label, terminal_label_bytes, EventSelection,
    Rect, XRequest,
};

verus! {

/// The height of the desktop panel.
pub const PANEL_HEIGHT: u16 = 30;

/// Where the panel draws its Exit button.
pub open spec fn exit_button() -> Rect {
    Rect { x: 10, y: 5, width: 80, height: 20 }
}

/// Where the panel draws its Terminal button.
pub open spec fn terminal_button() -> Rect {
    Rect { x: 100, y: 5, width: 100, height: 20 }
}

/// Is the point (`x`, `y`) on `r`, edges included?
pub open spec fn on_rect(r: Rect, x: int, y: int) -> bool {
    r.x <= x <= r.x + r.width && r.y <= y <= r.y + r.height
}

/// The panel buttons a click can hit.
#[derive(Debug, Clone, Copy, PartialEq, Eq)]
pub enum PanelButton {
    Exit,
    Terminal,
    Nothing,
}

/// The button under the point (`x`, `y`) in panel coordinates.
pub open spec fn button_under(x: int, y: int) -> PanelButton {
    if on_rect(exit_button(), x, y) {
        PanelButton::Exit
    } else if on_rect(terminal_button(), x, y) {
        PanelButton::Terminal
    } else {
        PanelButton::Nothing
    }
}

/// The button under a click at (`x`, `y`) in panel coordinates.
pub fn button_at(x: i16, y: i16) -> (b: PanelButton)
    ensures
        b == button_under(x as int, y as int),
{
    if x >= 10 && x <= 90 && y >= 5 && y <= 25 {
        PanelButton::Exit
    } else if x >= 100 && x <= 200 && y >= 5 && y <= 25 {
        PanelButton::Terminal
    } else {
        PanelButton::Nothing
    }
}

/// A click is on a panel button only inside the panel's strip
/// (0 <= y <= PANEL_HEIGHT); Exit is the rectangle x 10..90, y 5..25, and
/// Terminal the rectangle x 100..200, y 5..25.
pub proof fn law_buttons_lie_in_panel(x: int, y: int)
    ensures
        button_under(x, y) != PanelButton::Nothing ==> 0 <= y <= PANEL_HEIGHT,
        (button_under(x, y) == PanelButton::Exit) <==> (10 <= x <= 90 && 5 <= y <= 25),
        (button_under(x, y) == PanelButton::Terminal) <==> (100 <= x <= 200 && 5 <= y <= 25),
        y < 5 || y > 25 ==> button_under(x, y) == PanelButton::Nothing,
{
}

/// The two panel buttons do not overlap, so no click hits both.
pub proof fn law_buttons_apart(x: int, y: int)
    ensures
        !(on_rect(exit_button(), x, y) && on_rect(terminal_button(), x, y)),
{
}

/// A click lands on the button whose rectangle the panel drew under it:
/// inside the first drawn rectangle is Exit, inside the second is Terminal,
/// and outside both is no button.
pub proof fn law_clicks_hit_drawn_buttons(reqs: Seq<XRequest>, window: u32, gc_button: u32, gc_label: u32, x: int, y: int)
    requires
        draws_buttons(reqs, window, gc_button, gc_label),
    ensures
        reqs[0] matches XRequest::FillRectangle { rect, .. } && (on_rect(rect, x, y) <==> button_under(x, y) == PanelButton::Exit),
        reqs[1] matches XRequest::FillRectangle { rect, .. } && (on_rect(rect, x, y) <==> button_under(x, y) == PanelButton::Terminal),
{
}

/// The requests that draw the panel's buttons and labels with `gc_button`
/// for the buttons and `gc_label` for the labels.
pub open spec fn draws_buttons(reqs: Seq<XRequest>, window: u32, gc_button: u32, gc_label: u32) -> bool {
    &&& reqs.len() == 5
    &&& reqs[0] == XRequest::FillRectangle { drawable: window, gc: gc_button, rect: exit_button() }
    &&& reqs[1] == XRequest::FillRectangle { drawable: window, gc: gc_button, rect: terminal_button() }
    &&& draws_text(reqs[2], window, gc_label, 30, 20, exit_label())
    &&& draws_text(reqs[3], window, gc_label, 120, 20, terminal_label())
    &&& reqs[4] == XRequest::Flush
}

/// Requests that draw the buttons; see `draws_buttons`.
pub fn button_requests(window: u32, gc_button: u32, gc_label: u32) -> (reqs: Vec<XRequest>)
    ensures
        draws_buttons(reqs@, window, gc_button, gc_label),
{
    let mut reqs: Vec<XRequest> = Vec::new();
    reqs.push(XRequest::FillRectangle { drawable: window, gc: gc_button, rect: Rect { x: 10, y: 5, width: 80, height: 20 } });
    reqs.push(XRequest::FillRectangle { drawable: window, gc: gc_button, rect: Rect { x: 100, y: 5, width: 100, height: 20 } });
    reqs.push(XRequest::DrawText { drawable: window, gc: gc_label, x: 30, y: 20, text: exit_label_bytes() });
    reqs.push(XRequest::DrawText { drawable: window, gc: gc_label, x: 120, y: 20, text: terminal_label_bytes() });
    reqs.push(XRequest::Flush);
    reqs
}

/// The window manager's panel: a strip along the top of the screen with an
/// Exit and a Terminal button.
#[derive(Debug, Clone, Copy)]
pub struct Panel {
    pub window: u32,
    pub gc: u32,
}

impl Panel {
    /// A panel that will use the window id `window` and the graphics context
    /// id `gc`.
    pub fn new(window: u32, gc: u32) -> (p: Panel)
        ensures
            p.window == window,
            p.gc == gc,
    {
        Panel { window, gc }
    }

    /// The requests that create and show the panel across `width` pixels at
    /// the top of `root`: a white window that reports exposure and button
    /// presses, and a black-on-white graphics context.
    pub fn create_requests(&self, root: u32, width: u16) -> (reqs: Vec<XRequest>)
        ensures
            reqs@ == seq![
                XRequest::CreateWindow {
                    window: self.window,
                    parent: root,
                    rect: Rect { x: 0, y: 0, width: width, height: PANEL_HEIGHT },
                    background_pixel: 0xffffff,
                    events: EventSelection { exposure: true, button_press: true, ..EventSelection::none_spec() },
                    override_redirect: false,
                    visual: 0,
                },
                XRequest::CreateGc { gc: self.gc, drawable: self.window, foreground: 0x000000, background: Some(0xffffffu32) },
                XRequest::MapWindow { window: self.window },
                XRequest::Flush,
            ],
    {
        let mut events = EventSelection::none();
        events.exposure = true;
        events.button_press = true;
        let mut reqs: Vec<XRequest> = Vec::new();
        reqs.push(XRequest::CreateWindow {
            window: self.window,
            parent: root,
            rect: Rect { x: 0, y: 0, width: width, height: PANEL_HEIGHT },
            background_pixel: 0xffffff,
            events,
            override_redirect: false,
            visual: 0,
        });
        reqs.push(XRequest::CreateGc { gc: self.gc, drawable: self.window, foreground: 0x000000, background: Some(0xffffff) });
        reqs.push(XRequest::MapWindow { window: self.window });
        reqs.push(XRequest::Flush);
        assert(reqs@ =~= seq![
                XRequest::CreateWindow {
                    window: self.window,
                    parent: root,
                    rect: Rect { x: 0, y: 0, width: width, height: PANEL_HEIGHT },
                    background_pixel: 0xffffff,
                    events: EventSelection { exposure: true, button_press: true, ..EventSelection::none_spec() },
                    override_redirect: false,
                    visual: 0,
                },
                XRequest::CreateGc { gc: self.gc, drawable: self.window, foreground: 0x000000, background: Some(0xffffffu32) },
                XRequest::MapWindow { window: self.window },
                XRequest::Flush,
            ]);
        reqs
    }

    /// The requests that draw the buttons and their labels.
    pub fn draw(&self) -> (reqs: Vec<XRequest>)
        ensures
            draws_buttons(reqs@, self.window, self.gc, self.gc),
    {
        button_requests(self.window, self.gc, self.gc)
    }
}

} // verus!
