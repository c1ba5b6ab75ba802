use vstd::prelude::*;
use vstd::string::StringSliceAdditionalSpecFns;
use crate::request::{draws_text, EventSelection, Rect, WindowChanges, XRequest};
use crate::text::bytes_of;
use crate::theme::{color_value, Theme};

verus! {

pub const CLOSE_BTN_X: u16 = 5;
pub const CLOSE_BTN_SIZE: u16 = 15;
pub const MIN_BTN_X: u16 = 25;
pub const MIN_BTN_SIZE: u16 = 15;
pub const MAX_BTN_X: u16 = 45;
pub const MAX_BTN_SIZE: u16 = 15;

/// The longest text, in bytes, that one text request of the X protocol
/// can carry.
pub const MAX_TEXT_BYTES: usize = 255;

/// The ids that the X server handed out for the resources of a new frame.
#[derive(Debug, Clone, Copy)]
pub struct FrameIds {
    pub window: u32,
    pub title_bar: u32,
    pub gc: u32,
    pub gc_btn_close: u32,
    pub gc_btn_min: u32,
    pub gc_btn_max: u32,
    pub gc_text: u32,
}

/// The decoration the window manager puts around a client window: a frame
/// window holding a title bar above the client.
#[derive(Debug)]
pub struct Frame {
    pub window: u32,
    pub title_bar: u32,
    pub gc: u32,
    pub gc_btn_close: u32,
    pub gc_btn_min: u32,
    pub gc_btn_max: u32,
    pub gc_text: u32,
    pub theme: Theme,
}

/// Where the title bar's pieces go for `theme`, left to right: the close,
/// minimize and maximize buttons, each `btn_padding` after the previous one,
/// then the title twice that far after the last button.
pub open spec fn close_x(t: Theme) -> int {
    t.btn_padding as int
}

pub open spec fn min_x(t: Theme) -> int {
    close_x(t) + t.btn_size + t.btn_padding
}

pub open spec fn max_x(t: Theme) -> int {
    min_x(t) + t.btn_size + t.btn_padding
}

pub open spec fn title_x(t: Theme) -> int {
    max_x(t) + t.btn_size + t.btn_padding * 2
}

/// The buttons are centred vertically in the title bar.
pub open spec fn button_top(t: Theme) -> int {
    (t.titlebar_height - t.btn_size) / 2
}

/// The baseline of the title text.
pub open spec fn title_baseline(t: Theme) -> int {
    t.titlebar_height / 2 + 5
}

/// The square button of `t`'s size at `x`, `button_top` down.
pub open spec fn button_rect(t: Theme, x: int) -> Rect {
    Rect { x: x as i16, y: button_top(t) as i16, width: t.btn_size, height: t.btn_size }
}

/// The title bar of `t` can be laid out: the buttons fit in its height and
/// the positions fit in 16 bits, as the arithmetic that computes them needs.
pub open spec fn layout_fits(t: Theme) -> bool {
    t.btn_size <= t.titlebar_height && title_x(t) <= u16::MAX
}

/// In a title bar that can be laid out, the buttons sit inside the bar's
/// height, left to right without overlapping, each exactly `btn_padding`
/// after the one before, and the title starts after the last button; where
/// the positions fit in the signed coordinates of the X protocol, the drawn
/// rectangles are at exactly these positions.
pub proof fn law_title_bar_layout(t: Theme)
    requires
        layout_fits(t),
    ensures
        0 <= button_top(t),
        button_top(t) + t.btn_size <= t.titlebar_height,
        close_x(t) + t.btn_size + t.btn_padding == min_x(t),
        min_x(t) + t.btn_size + t.btn_padding == max_x(t),
        max_x(t) + t.btn_size <= title_x(t),
        title_x(t) <= i16::MAX ==> {
            &&& button_rect(t, close_x(t)).x == close_x(t)
            &&& button_rect(t, min_x(t)).x == min_x(t)
            &&& button_rect(t, max_x(t)).x == max_x(t)
            &&& button_rect(t, close_x(t)).y == button_top(t)
        },
{
}

/// The events a frame window asks for.
pub open spec fn frame_events() -> EventSelection {
    EventSelection {
        substructure_redirect: true,
        substructure_notify: true,
        exposure: true,
        button_press: true,
        button_release: true,
        pointer_motion: true,
        ..EventSelection::none_spec()
    }
}

/// The events a title bar asks for.
pub open spec fn title_bar_events() -> EventSelection {
    EventSelection { exposure: true, button_press: true, button_release: true, pointer_motion: true, ..EventSelection::none_spec() }
}

impl Frame {
    /// `reqs` draw the title bar: the close, minimize and maximize buttons in
    /// their colors, then the title `text`, then a flush.
    pub open spec fn draws_title_bar(&self, reqs: Seq<XRequest>, text: Seq<u8>) -> bool {
        let t = self.theme;
        &&& reqs.len() == 5
        &&& reqs[0] == XRequest::FillRectangle { drawable: self.title_bar, gc: self.gc_btn_close, rect: button_rect(t, close_x(t)) }
        &&& reqs[1] == XRequest::FillRectangle { drawable: self.title_bar, gc: self.gc_btn_min, rect: button_rect(t, min_x(t)) }
        &&& reqs[2] == XRequest::FillRectangle { drawable: self.title_bar, gc: self.gc_btn_max, rect: button_rect(t, max_x(t)) }
        &&& draws_text(reqs[3], self.title_bar, self.gc_text, title_x(t) as i16, title_baseline(t) as i16, text)
        &&& reqs[4] == XRequest::Flush
    }

    /// A frame that uses the resources `ids` and is drawn with `theme`.
    pub fn new(ids: FrameIds, theme: Theme) -> (f: Frame)
        ensures
            f.window == ids.window,
            f.title_bar == ids.title_bar,
            f.gc == ids.gc,
            f.gc_btn_close == ids.gc_btn_close,
            f.gc_btn_min == ids.gc_btn_min,
            f.gc_btn_max == ids.gc_btn_max,
            f.gc_text == ids.gc_text,
            f.theme == theme,
    {
        Frame {
            window: ids.window,
            title_bar: ids.title_bar,
            gc: ids.gc,
            gc_btn_close: ids.gc_btn_close,
            gc_btn_min: ids.gc_btn_min,
            gc_btn_max: ids.gc_btn_max,
            gc_text: ids.gc_text,
            theme,
        }
    }

    /// The requests that build the frame around `client_window`, which is
    /// `width` by `height` at (`x`, `y`) on `root`: the frame window (title bar
    /// plus client high), the title bar across its top, the five graphics
    /// contexts in the theme's colors, the client moved under the title bar,
    /// then everything shown.
    pub fn create_requests(&self, root: u32, client_window: u32, x: i16, y: i16, width: u16, height: u16) -> (reqs: Vec<XRequest>)
        requires
            height + self.theme.titlebar_height <= u16::MAX,
        ensures
            ({
                let t = self.theme;
                let th = t.titlebar_height;
                let bg = color_value(t.titlebar_bg@);
                reqs@ == seq![
                    XRequest::CreateWindow {
                        window: self.window,
                        parent: root,
                        rect: Rect { x: x, y: y, width: width, height: (height + th) as u16 },
                        background_pixel: bg,
                        events: frame_events(),
                        override_redirect: false,
                        visual: 0,
                    },
                    XRequest::CreateWindow {
                        window: self.title_bar,
                        parent: self.window,
                        rect: Rect { x: 0, y: 0, width: width, height: th },
                        background_pixel: bg,
                        events: title_bar_events(),
                        override_redirect: false,
                        visual: 0,
                    },
                    XRequest::CreateGc { gc: self.gc, drawable: self.title_bar, foreground: bg, background: None },
                    XRequest::CreateGc { gc: self.gc_btn_close, drawable: self.title_bar, foreground: color_value(t.btn_close_color@), background: None },
                    XRequest::CreateGc { gc: self.gc_btn_min, drawable: self.title_bar, foreground: color_value(t.btn_min_color@), background: None },
                    XRequest::CreateGc { gc: self.gc_btn_max, drawable: self.title_bar, foreground: color_value(t.btn_max_color@), background: None },
                    XRequest::CreateGc { gc: self.gc_text, drawable: self.title_bar, foreground: color_value(t.titlebar_text@), background: Some(bg) },
                    XRequest::ReparentWindow { window: client_window, parent: self.window, x: 0, y: th as i16 },
                    XRequest::ConfigureWindow {
                        window: client_window,
                        changes: WindowChanges { x: Some(0i32), y: Some(th as i32), width: Some(width as u32), height: Some(height as u32), raise: false },
                    },
                    XRequest::MapWindow { window: self.window },
                    XRequest::MapWindow { window: self.title_bar },
                    XRequest::MapWindow { window: client_window },
                    XRequest::Flush,
                ]
            }),
    {
        let th = self.theme.titlebar_height;
        let total_height = height + th;
        let bg = self.theme.titlebar_bg();
        let close = self.theme.btn_close();
        let min = self.theme.btn_min();
        let max = self.theme.btn_max();
        let text = self.theme.titlebar_text();
        let mut fe = EventSelection::none();
        fe.substructure_redirect = true;
        fe.substructure_notify = true;
        fe.exposure = true;
        fe.button_press = true;
        fe.button_release = true;
        fe.pointer_motion = true;
        let mut be = EventSelection::none();
        be.exposure = true;
        be.button_press = true;
        be.button_release = true;
        be.pointer_motion = true;
        let mut reqs: Vec<XRequest> = Vec::new();
        reqs.push(XRequest::CreateWindow {
            window: self.window,
            parent: root,
            rect: Rect { x, y, width, height: total_height },
            background_pixel: bg,
            events: fe,
            override_redirect: false,
            visual: 0,
        });
        reqs.push(XRequest::CreateWindow {
            window: self.title_bar,
            parent: self.window,
            rect: Rect { x: 0, y: 0, width, height: th },
            background_pixel: bg,
            events: be,
            override_redirect: false,
            visual: 0,
        });
        reqs.push(XRequest::CreateGc { gc: self.gc, drawable: self.title_bar, foreground: bg, background: None });
        reqs.push(XRequest::CreateGc { gc: self.gc_btn_close, drawable: self.title_bar, foreground: close, background: None });
        reqs.push(XRequest::CreateGc { gc: self.gc_btn_min, drawable: self.title_bar, foreground: min, background: None });
        reqs.push(XRequest::CreateGc { gc: self.gc_btn_max, drawable: self.title_bar, foreground: max, background: None });
        reqs.push(XRequest::CreateGc { gc: self.gc_text, drawable: self.title_bar, foreground: text, background: Some(bg) });
        reqs.push(XRequest::ReparentWindow { window: client_window, parent: self.window, x: 0, y: th as i16 });
        reqs.push(XRequest::ConfigureWindow {
            window: client_window,
            changes: WindowChanges { x: Some(0), y: Some(th as i32), width: Some(width as u32), height: Some(height as u32), raise: false },
        });
        reqs.push(XRequest::MapWindow { window: self.window });
        reqs.push(XRequest::MapWindow { window: self.title_bar });
        reqs.push(XRequest::MapWindow { window: client_window });
        reqs.push(XRequest::Flush);
        proof {
            let t = self.theme;
            let bgv = color_value(t.titlebar_bg@);
            assert(reqs@ =~= seq![
                    XRequest::CreateWindow {
                        window: self.window,
                        parent: root,
                        rect: Rect { x: x, y: y, width: width, height: (height + th) as u16 },
                        background_pixel: bgv,
                        events: frame_events(),
                        override_redirect: false,
                        visual: 0,
                    },
                    XRequest::CreateWindow {
                        window: self.title_bar,
                        parent: self.window,
                        rect: Rect { x: 0, y: 0, width: width, height: th },
                        background_pixel: bgv,
                        events: title_bar_events(),
                        override_redirect: false,
                        visual: 0,
                    },
                    XRequest::CreateGc { gc: self.gc, drawable: self.title_bar, foreground: bgv, background: None },
                    XRequest::CreateGc { gc: self.gc_btn_close, drawable: self.title_bar, foreground: color_value(t.btn_close_color@), background: None },
                    XRequest::CreateGc { gc: self.gc_btn_min, drawable: self.title_bar, foreground: color_value(t.btn_min_color@), background: None },
                    XRequest::CreateGc { gc: self.gc_btn_max, drawable: self.title_bar, foreground: color_value(t.btn_max_color@), background: None },
                    XRequest::CreateGc { gc: self.gc_text, drawable: self.title_bar, foreground: color_value(t.titlebar_text@), background: Some(bgv) },
                    XRequest::ReparentWindow { window: client_window, parent: self.window, x: 0, y: th as i16 },
                    XRequest::ConfigureWindow {
                        window: client_window,
                        changes: WindowChanges { x: Some(0i32), y: Some(th as i32), width: Some(width as u32), height: Some(height as u32), raise: false },
                    },
                    XRequest::MapWindow { window: self.window },
                    XRequest::MapWindow { window: self.title_bar },
                    XRequest::MapWindow { window: client_window },
                    XRequest::Flush,
                ]);
        }
        reqs
    }

    /// The requests that draw the title bar: the close, minimize and maximize
    /// buttons in their colors, then `title`, which can be at most
    /// `MAX_TEXT_BYTES` long in UTF-8 to fit one text request.
    pub fn draw(&self, title: &str) -> (reqs: Vec<XRequest>)
        requires
            layout_fits(self.theme),
            title.spec_bytes().len() <= MAX_TEXT_BYTES,
        ensures
            self.draws_title_bar(reqs@, title.spec_bytes()),
    {
        let btn_size = self.theme.btn_size;
        let btn_padding = self.theme.btn_padding;
        let title_height = self.theme.titlebar_height;
        let top = ((title_height - btn_size) / 2) as i16;
        let close_x = btn_padding;
        let min_x = close_x + btn_size + btn_padding;
        let max_x = min_x + btn_size + btn_padding;
        let title_x = max_x + btn_size + btn_padding * 2;
        let mut reqs: Vec<XRequest> = Vec::new();
        reqs.push(XRequest::FillRectangle {
            drawable: self.title_bar,
            gc: self.gc_btn_close,
            rect: Rect { x: close_x as i16, y: top, width: btn_size, height: btn_size },
        });
        reqs.push(XRequest::FillRectangle {
            drawable: self.title_bar,
            gc: self.gc_btn_min,
            rect: Rect { x: min_x as i16, y: top, width: btn_size, height: btn_size },
        });
        reqs.push(XRequest::FillRectangle {
            drawable: self.title_bar,
            gc: self.gc_btn_max,
            rect: Rect { x: max_x as i16, y: top, width: btn_size, height: btn_size },
        });
        reqs.push(XRequest::DrawText {
            drawable: self.title_bar,
            gc: self.gc_text,
            x: title_x as i16,
            y: (title_height / 2 + 5) as i16,
            text: bytes_of(title),
        });
        reqs.push(XRequest::Flush);
        reqs
    }
}

} // verus!
