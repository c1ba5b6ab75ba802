use vstd::prelude::*;
use crate::request::{sets_atoms, EventSelection, Rect, XRequest};

verus! {

/// The wallpaper's color.
pub const WALLPAPER_COLOR: u32 = 0x2b3a55;

/// The atoms the wallpaper's window uses, as the X server named them.
#[derive(Debug, Clone, Copy)]
pub struct WallpaperAtoms {
    /// `_NET_WM_WINDOW_TYPE`
    pub window_type: u32,
    /// `_NET_WM_WINDOW_TYPE_DESKTOP`
    pub window_type_desktop: u32,
    /// `_NET_WM_STATE`
    pub state: u32,
    /// `_NET_WM_STATE_BELOW`
    pub state_below: u32,
    /// `_NET_WM_STATE_SKIP_TASKBAR`
    pub state_skip_taskbar: u32,
    /// `_NET_WM_STATE_SKIP_PAGER`
    pub state_skip_pager: u32,
}

/// The events the wallpaper window asks for.
pub open spec fn wallpaper_events() -> EventSelection {
    EventSelection { exposure: true, structure_notify: true, ..EventSelection::none_spec() }
}

/// The requests that put up the wallpaper: a window `win` covering the
/// `width` by `height` screen of `root` in the wallpaper color, left alone by
/// the window manager; marked as the desktop, kept below other windows and
/// out of task bars and pagers; then shown.
pub fn wallpaper_requests(win: u32, root: u32, visual: u32, width: u16, height: u16, atoms: WallpaperAtoms) -> (reqs: Vec<XRequest>)
    ensures
        reqs@.len() == 5,
        reqs@[0] == (XRequest::CreateWindow {
            window: win,
            parent: root,
            rect: Rect { x: 0, y: 0, width: width, height: height },
            background_pixel: WALLPAPER_COLOR,
            events: wallpaper_events(),
            override_redirect: true,
            visual: visual,
        }),
        sets_atoms(reqs@[1], win, atoms.window_type, seq![atoms.window_type_desktop]),
        sets_atoms(reqs@[2], win, atoms.state, seq![atoms.state_below, atoms.state_skip_taskbar, atoms.state_skip_pager]),
        reqs@[3] == (XRequest::MapWindow { window: win }),
        reqs@[4] == XRequest::Flush,
{
    let mut events = EventSelection::none();
    events.exposure = true;
    events.structure_notify = true;
    let mut reqs: Vec<XRequest> = Vec::new();
    reqs.push(XRequest::CreateWindow {
        window: win,
        parent: root,
        rect: Rect { x: 0, y: 0, width, height },
        background_pixel: WALLPAPER_COLOR,
        events,
        override_redirect: true,
        visual,
    });
    let desktop: Vec<u32> = vec![atoms.window_type_desktop];
    assert(desktop@ =~= seq![atoms.window_type_desktop]);
    reqs.push(XRequest::SetAtomProperty { window: win, property: atoms.window_type, atoms: desktop });
    let states: Vec<u32> = vec![atoms.state_below, atoms.state_skip_taskbar, atoms.state_skip_pager];
    assert(states@ =~= seq![atoms.state_below, atoms.state_skip_taskbar, atoms.state_skip_pager]);
    reqs.push(XRequest::SetAtomProperty { window: win, property: atoms.state, atoms: states });
    reqs.push(XRequest::MapWindow { window: win });
    reqs.push(XRequest::Flush);
    reqs
}

} // verus!
