use vstd::prelude::*;
use crate::request::{Rect, WindowChanges, XRequest, CURRENT_TIME};

verus! {

/// Whether a managed window is shown or minimized.
#[derive(Debug, Clone, Copy, PartialEq, Eq)]
pub enum ClientState {
    Normal,
    Minimized,
}

/// The smallest size the window manager gives a client window.
pub const MIN_WIDTH: u16 = 400;
pub const MIN_HEIGHT: u16 = 300;

/// A window the window manager looks after.
#[derive(Debug, Clone, Copy)]
pub struct Client {
    pub window: u32,
    pub frame: u32,
    pub x: i16,
    pub y: i16,
    pub width: u16,
    pub height: u16,
    pub state: ClientState,
    pub focused: bool,
    pub wm_delete_window: u32,
}

/// `a` or `b`, whichever is larger.
pub open spec fn larger(a: u16, b: u16) -> u16 {
    if a >= b { a } else { b }
}

/// The requests `reqs` change the geometry of `window` by `changes` and flush.
pub open spec fn configures(reqs: Seq<XRequest>, window: u32, changes: WindowChanges) -> bool {
    reqs == seq![XRequest::ConfigureWindow { window: window, changes: changes }, XRequest::Flush]
}

impl Client {
    /// A client for `window` whose geometry the X server reported as `geom`:
    /// at that position, at least `MIN_WIDTH` by `MIN_HEIGHT`, shown, not
    /// focused, and not framed yet.
    pub fn new(window: u32, wm_delete_window: u32, geom: Rect) -> (c: Client)
        ensures
            c.window == window,
            c.wm_delete_window == wm_delete_window,
            c.frame == 0,
            c.x == geom.x,
            c.y == geom.y,
            c.width == larger(geom.width, MIN_WIDTH),
            c.height == larger(geom.height, MIN_HEIGHT),
            c.state == ClientState::Normal,
            !c.focused,
    {
        let width = if geom.width >= MIN_WIDTH { geom.width } else { MIN_WIDTH };
        let height = if geom.height >= MIN_HEIGHT { geom.height } else { MIN_HEIGHT };
        Client {
            window,
            frame: 0,
            x: geom.x,
            y: geom.y,
            width,
            height,
            state: ClientState::Normal,
            focused: false,
            wm_delete_window,
        }
    }

    /// The requests that ask the client to close its window.
    pub fn close_requests(&self) -> (reqs: Vec<XRequest>)
        ensures
            reqs@ == seq![XRequest::SendDeleteWindow { window: self.window, delete_atom: self.wm_delete_window, time: CURRENT_TIME }, XRequest::Flush],
    {
        let mut reqs: Vec<XRequest> = Vec::new();
        reqs.push(XRequest::SendDeleteWindow { window: self.window, delete_atom: self.wm_delete_window, time: CURRENT_TIME });
        reqs.push(XRequest::Flush);
        assert(reqs@ =~= seq![XRequest::SendDeleteWindow { window: self.window, delete_atom: self.wm_delete_window, time: CURRENT_TIME }, XRequest::Flush]);
        reqs
    }

    /// The requests that hide the client's frame.
    pub fn minimize_requests(&self) -> (reqs: Vec<XRequest>)
        ensures
            reqs@ == seq![XRequest::UnmapWindow { window: self.frame }, XRequest::Flush],
    {
        let mut reqs: Vec<XRequest> = Vec::new();
        reqs.push(XRequest::UnmapWindow { window: self.frame });
        reqs.push(XRequest::Flush);
        assert(reqs@ =~= seq![XRequest::UnmapWindow { window: self.frame }, XRequest::Flush]);
        reqs
    }

    /// Records that the frame was hidden.
    pub fn minimize(&mut self)
        ensures
            *final(self) == (Client { state: ClientState::Minimized, ..*old(self) }),
    {
        self.state = ClientState::Minimized;
    }

    /// The requests that show the client's frame again.
    pub fn restore_requests(&self) -> (reqs: Vec<XRequest>)
        ensures
            reqs@ == seq![XRequest::MapWindow { window: self.frame }, XRequest::Flush],
    {
        let mut reqs: Vec<XRequest> = Vec::new();
        reqs.push(XRequest::MapWindow { window: self.frame });
        reqs.push(XRequest::Flush);
        assert(reqs@ =~= seq![XRequest::MapWindow { window: self.frame }, XRequest::Flush]);
        reqs
    }

    /// Records that the frame is shown again.
    pub fn restore(&mut self)
        ensures
            *final(self) == (Client { state: ClientState::Normal, ..*old(self) }),
    {
        self.state = ClientState::Normal;
    }

    /// Moves the client to (`x`, `y`) and gives the requests that move its frame.
    pub fn move_to(&mut self, x: i16, y: i16) -> (reqs: Vec<XRequest>)
        ensures
            *final(self) == (Client { x: x, y: y, ..*old(self) }),
            configures(reqs@, old(self).frame, WindowChanges { x: Some(x as i32), y: Some(y as i32), width: None, height: None, raise: false }),
    {
        self.x = x;
        self.y = y;
        let mut reqs: Vec<XRequest> = Vec::new();
        reqs.push(XRequest::ConfigureWindow {
            window: self.frame,
            changes: WindowChanges { x: Some(x as i32), y: Some(y as i32), width: None, height: None, raise: false },
        });
        reqs.push(XRequest::Flush);
        assert(reqs@ =~= seq![XRequest::ConfigureWindow {
            window: self.frame,
            changes: WindowChanges { x: Some(x as i32), y: Some(y as i32), width: None, height: None, raise: false },
        }, XRequest::Flush]);
        reqs
    }

    /// Resizes the client to `width` by `height` and gives the requests that
    /// resize its frame.
    pub fn resize(&mut self, width: u16, height: u16) -> (reqs: Vec<XRequest>)
        ensures
            *final(self) == (Client { width: width, height: height, ..*old(self) }),
            configures(reqs@, old(self).frame, WindowChanges { x: None, y: None, width: Some(width as u32), height: Some(height as u32), raise: false }),
    {
        self.width = width;
        self.height = height;
        let mut reqs: Vec<XRequest> = Vec::new();
        reqs.push(XRequest::ConfigureWindow {
            window: self.frame,
            changes: WindowChanges { x: None, y: None, width: Some(width as u32), height: Some(height as u32), raise: false },
        });
        reqs.push(XRequest::Flush);
        assert(reqs@ =~= seq![XRequest::ConfigureWindow {
            window: self.frame,
            changes: WindowChanges { x: None, y: None, width: Some(width as u32), height: Some(height as u32), raise: false },
        }, XRequest::Flush]);
        reqs
    }

    /// The requests that give the client the keyboard focus.
    pub fn focus_requests(&self) -> (reqs: Vec<XRequest>)
        ensures
            reqs@ == seq![XRequest::SetInputFocus { window: self.window }, XRequest::Flush],
    {
        let mut reqs: Vec<XRequest> = Vec::new();
        reqs.push(XRequest::SetInputFocus { window: self.window });
        reqs.push(XRequest::Flush);
        assert(reqs@ =~= seq![XRequest::SetInputFocus { window: self.window }, XRequest::Flush]);
        reqs
    }

    /// Records that the client has the focus.
    pub fn focus(&mut self)
        ensures
            *final(self) == (Client { focused: true, ..*old(self) }),
    {
        self.focused = true;
    }
}

/// Restoring a minimized client that was shown brings it back exactly as it was.
pub proof fn law_restore_undoes_minimize(c: Client)
    requires
        c.state == ClientState::Normal,
    ensures
        (Client { state: ClientState::Normal, ..(Client { state: ClientState::Minimized, ..c }) })
            == c,
{
}

/// The requests that map a newly requested window in the simple window
/// manager: placed at (200, 100), 800 by 600, shown, and focused.
pub fn map_window(window: u32) -> (reqs: Vec<XRequest>)
    ensures
        reqs@ == seq![
            XRequest::ConfigureWindow {
                window: window,
                changes: WindowChanges { x: Some(200i32), y: Some(100i32), width: Some(800u32), height: Some(600u32), raise: false },
            },
            XRequest::MapWindow { window: window },
            XRequest::SetInputFocus { window: window },
            XRequest::Flush,
        ],
{
    let mut reqs: Vec<XRequest> = Vec::new();
    reqs.push(XRequest::ConfigureWindow {
        window,
        changes: WindowChanges { x: Some(200), y: Some(100), width: Some(800), height: Some(600), raise: false },
    });
    reqs.push(XRequest::MapWindow { window });
    reqs.push(XRequest::SetInputFocus { window });
    reqs.push(XRequest::Flush);
    assert(reqs@ =~= seq![
            XRequest::ConfigureWindow {
                window: window,
                changes: WindowChanges { x: Some(200i32), y: Some(100i32), width: Some(800u32), height: Some(600u32), raise: false },
            },
            XRequest::MapWindow { window: window },
            XRequest::SetInputFocus { window: window },
            XRequest::Flush,
        ]);
    reqs
}

} // verus!
