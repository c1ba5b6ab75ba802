use vstd::prelude::*;
use crate::panel::{button_at, button_under, PanelButton};
use crate::pointer::Pointer;
use crate::request::{cursor_font_name, cursor_font_name_bytes, opens_font, EventSelection, Rgb, XRequest};

verus! {

/// The X events the window managers act on.
#[derive(Debug, Clone, Copy, PartialEq, Eq)]
pub enum WmEvent {
    MapRequest(u32),
    UnmapNotify(u32),
    DestroyNotify(u32),
    ConfigureRequest { window: u32, x: i16, y: i16, width: u16, height: u16 },
    Expose(u32),
    MotionNotify { x: i16, y: i16, root_x: i16, root_y: i16 },
    ButtonPress { x: i16, y: i16, root_x: i16, root_y: i16, button: u8 },
    ButtonRelease { x: i16, y: i16, button: u8 },
    EnterNotify(u32),
    Unknown,
}

/// What the window manager does in answer to an event.
#[derive(Debug, Clone, Copy, PartialEq, Eq)]
pub enum WmAction {
    /// Place and show the window that asked to be mapped.
    MapWindow(u32),
    Nothing,
}

/// The pointer after `event`: moved by motion and button events, pressed by
/// a button press and released by a button release; other events leave it.
pub open spec fn pointer_after(p: Pointer, event: WmEvent) -> Pointer {
    match event {
        WmEvent::MotionNotify { x, y, .. } => Pointer { x: x, y: y, ..p },
        WmEvent::ButtonPress { x, y, .. } => Pointer { x: x, y: y, left_pressed: true },
        WmEvent::ButtonRelease { x, y, .. } => Pointer { x: x, y: y, left_pressed: false },
        _ => p,
    }
}

/// The pointer after each of `events` in turn.
pub open spec fn pointer_after_all(p: Pointer, events: Seq<WmEvent>) -> Pointer
    decreases events.len(),
{
    if events.len() == 0 {
        p
    } else {
        pointer_after(pointer_after_all(p, events.drop_last()), events.last())
    }
}

/// Handling the events one at a time, as `handle_event` does, gives the
/// pointer after all of them: the pointer after the first `k` events, moved
/// by event `k`, is the pointer after the first `k + 1`.
pub proof fn law_pointer_steps_compose(p: Pointer, events: Seq<WmEvent>, k: int)
    requires
        0 <= k < events.len(),
    ensures
        pointer_after(pointer_after_all(p, events.take(k)), events[k]) == pointer_after_all(p, events.take(k + 1)),
{
    assert(events.take(k + 1).drop_last() =~= events.take(k));
}

/// Motion and button events move the pointer.
pub open spec fn moves_pointer(e: WmEvent) -> bool {
    e is MotionNotify || e is ButtonPress || e is ButtonRelease
}

/// Button presses and releases set the button state.
pub open spec fn sets_button(e: WmEvent) -> bool {
    e is ButtonPress || e is ButtonRelease
}

/// Where a pointer event puts the pointer, in the event window's coordinates.
pub open spec fn event_position(e: WmEvent) -> (i16, i16) {
    match e {
        WmEvent::MotionNotify { x, y, .. } => (x, y),
        WmEvent::ButtonPress { x, y, .. } => (x, y),
        WmEvent::ButtonRelease { x, y, .. } => (x, y),
        _ => (0, 0),
    }
}

/// After a series of events the pointer is where the last motion or button
/// event put it.
pub proof fn law_pointer_at_last_pointer_event(p: Pointer, events: Seq<WmEvent>, k: int)
    requires
        0 <= k < events.len(),
        moves_pointer(events[k]),
        forall|j: int| k < j < events.len() ==> !moves_pointer(#[trigger] events[j]),
    ensures
        (pointer_after_all(p, events).x, pointer_after_all(p, events).y) == event_position(events[k]),
    decreases events.len(),
{
    if k < events.len() - 1 {
        assert forall|j: int| k < j < events.drop_last().len() implies !moves_pointer(#[trigger] events.drop_last()[j]) by {
            assert(events.drop_last()[j] == events[j]);
        }
        law_pointer_at_last_pointer_event(p, events.drop_last(), k);
        assert(!moves_pointer(events[events.len() - 1]));
    }
}

/// Events that neither move the pointer nor press or release a button
/// leave the pointer as it was.
pub proof fn law_pointer_unmoved(p: Pointer, events: Seq<WmEvent>)
    requires
        forall|j: int| 0 <= j < events.len() ==> !moves_pointer(#[trigger] events[j]),
    ensures
        pointer_after_all(p, events) == p,
    decreases events.len(),
{
    if events.len() > 0 {
        assert forall|j: int| 0 <= j < events.drop_last().len() implies !moves_pointer(#[trigger] events.drop_last()[j]) by {
            assert(events.drop_last()[j] == events[j]);
        }
        law_pointer_unmoved(p, events.drop_last());
        assert(!moves_pointer(events[events.len() - 1]));
    }
}

/// After a series of events the button is held exactly when the last press
/// or release among them was a press; with none, it is as it was.
pub proof fn law_button_follows_last_press(p: Pointer, events: Seq<WmEvent>)
    ensures
        (exists|k: int| 0 <= k < events.len() && sets_button(events[k])
            && (forall|j: int| k < j < events.len() ==> !sets_button(#[trigger] events[j]))
            && pointer_after_all(p, events).left_pressed == (events[k] is ButtonPress))
        || ((forall|j: int| 0 <= j < events.len() ==> !sets_button(#[trigger] events[j]))
            && pointer_after_all(p, events).left_pressed == p.left_pressed),
    decreases events.len(),
{
    if events.len() > 0 {
        let rest = events.drop_last();
        law_button_follows_last_press(p, rest);
        let last = events.len() - 1;
        if sets_button(events[last]) {
            assert(forall|j: int| last < j < events.len() ==> !sets_button(#[trigger] events[j]));
        } else {
            if exists|k: int| 0 <= k < rest.len() && sets_button(rest[k])
                && (forall|j: int| k < j < rest.len() ==> !sets_button(#[trigger] rest[j]))
                && pointer_after_all(p, rest).left_pressed == (rest[k] is ButtonPress) {
                let k = choose|k: int| 0 <= k < rest.len() && sets_button(rest[k])
                    && (forall|j: int| k < j < rest.len() ==> !sets_button(#[trigger] rest[j]))
                    && pointer_after_all(p, rest).left_pressed == (rest[k] is ButtonPress);
                assert(rest[k] == events[k]);
                assert forall|j: int| k < j < events.len() implies !sets_button(#[trigger] events[j]) by {
                    if j < last {
                        assert(rest[j] == events[j]);
                    }
                }
            } else {
                assert forall|j: int| 0 <= j < events.len() implies !sets_button(#[trigger] events[j]) by {
                    if j < last {
                        assert(rest[j] == events[j]);
                    }
                }
            }
        }
    }
}

/// Updates the pointer from a pointer event.
fn track_pointer(pointer: &mut Pointer, event: WmEvent)
    ensures
        *final(pointer) == pointer_after(*old(pointer), event),
{
    match event {
        WmEvent::MotionNotify { x, y, .. } => pointer.move_to(x, y),
        WmEvent::ButtonPress { x, y, .. } => {
            pointer.move_to(x, y);
            pointer.press();
        },
        WmEvent::ButtonRelease { x, y, .. } => {
            pointer.move_to(x, y);
            pointer.release();
        },
        _ => {},
    }
}

/// One step of the window manager's event loop: the pointer follows pointer
/// events, and a map request is answered by mapping the window.
pub fn handle_event(pointer: &mut Pointer, event: WmEvent) -> (action: WmAction)
    ensures
        *final(pointer) == pointer_after(*old(pointer), event),
        action == (match event {
            WmEvent::MapRequest(w) => WmAction::MapWindow(w),
            _ => WmAction::Nothing,
        }),
{
    track_pointer(pointer, event);
    match event {
        WmEvent::MapRequest(w) => WmAction::MapWindow(w),
        _ => WmAction::Nothing,
    }
}

/// What the simple window manager, which draws its own panel, does in answer
/// to an event.
#[derive(Debug, Clone, Copy, PartialEq, Eq)]
pub enum RootAction {
    /// The Exit button was clicked: quit.
    Exit,
    /// The Terminal button was clicked: start a terminal.
    SpawnTerminal,
    /// Place and show the window that asked to be mapped.
    MapWindow(u32),
    /// Draw the panel again.
    RedrawPanel,
    Nothing,
}

/// One step of the simple window manager's event loop: the pointer follows
/// pointer events, a click on a panel button acts on it, a map request maps
/// the window and an exposure redraws the panel.
pub fn handle_root_event(pointer: &mut Pointer, event: WmEvent) -> (action: RootAction)
    ensures
        *final(pointer) == pointer_after(*old(pointer), event),
        match event {
            WmEvent::ButtonPress { x, y, .. } => action == (match button_under(x as int, y as int) {
                PanelButton::Exit => RootAction::Exit,
                PanelButton::Terminal => RootAction::SpawnTerminal,
                PanelButton::Nothing => RootAction::Nothing,
            }),
            WmEvent::MapRequest(w) => action == RootAction::MapWindow(w),
            WmEvent::Expose(_) => action == RootAction::RedrawPanel,
            _ => action == RootAction::Nothing,
        },
{
    track_pointer(pointer, event);
    match event {
        WmEvent::ButtonPress { x, y, .. } => match button_at(x, y) {
            PanelButton::Exit => RootAction::Exit,
            PanelButton::Terminal => RootAction::SpawnTerminal,
            PanelButton::Nothing => RootAction::Nothing,
        },
        WmEvent::MapRequest(w) => RootAction::MapWindow(w),
        WmEvent::Expose(_) => RootAction::RedrawPanel,
        _ => RootAction::Nothing,
    }
}

/// The events the framing window manager takes over on the root window.
pub open spec fn wm_root_events() -> EventSelection {
    EventSelection {
        substructure_redirect: true,
        substructure_notify: true,
        structure_notify: true,
        exposure: true,
        button_press: true,
        button_release: true,
        pointer_motion: true,
        property_change: true,
    }
}

/// The events the simple window manager takes over on the root window.
pub open spec fn simple_root_events() -> EventSelection {
    EventSelection {
        substructure_redirect: true,
        substructure_notify: true,
        exposure: true,
        button_press: true,
        button_release: true,
        pointer_motion: true,
        ..EventSelection::none_spec()
    }
}

/// Whichever window manager takes over the root, it asks for substructure
/// redirection (so that map requests come to it) and substructure notices.
pub proof fn law_take_over_redirects(framing: bool)
    ensures
        (if framing { wm_root_events() } else { simple_root_events() }).substructure_redirect,
        (if framing { wm_root_events() } else { simple_root_events() }).substructure_notify,
        (if framing { wm_root_events() } else { simple_root_events() }).button_press,
        (if framing { wm_root_events() } else { simple_root_events() }).pointer_motion,
{
}

/// The requests with which a window manager takes over `root`.
pub fn take_over_root(root: u32, framing: bool) -> (reqs: Vec<XRequest>)
    ensures
        reqs@ == seq![
            XRequest::SelectEvents { window: root, events: if framing { wm_root_events() } else { simple_root_events() } },
            XRequest::Flush,
        ],
        reqs@[0] matches XRequest::SelectEvents { window, events } && window == root && events.substructure_redirect,
{
    let mut events = EventSelection::none();
    events.substructure_redirect = true;
    events.substructure_notify = true;
    events.exposure = true;
    events.button_press = true;
    events.button_release = true;
    events.pointer_motion = true;
    if framing {
        events.structure_notify = true;
        events.property_change = true;
    }
    let mut reqs: Vec<XRequest> = Vec::new();
    reqs.push(XRequest::SelectEvents { window: root, events });
    reqs.push(XRequest::Flush);
    assert(reqs@ =~= seq![
            XRequest::SelectEvents { window: root, events: if framing { wm_root_events() } else { simple_root_events() } },
            XRequest::Flush,
        ]);
    reqs
}

/// The glyph of the left-pointing arrow in X's cursor font, and its mask.
pub const LEFT_PTR: u16 = 68;
pub const LEFT_PTR_MASK: u16 = 69;

/// Black, as the cursor's foreground.
pub open spec fn black() -> Rgb {
    Rgb { red: 0, green: 0, blue: 0 }
}

/// White, as the cursor's background.
pub open spec fn white() -> Rgb {
    Rgb { red: 65535, green: 65535, blue: 65535 }
}

/// The request that makes the arrow cursor `cursor` from the cursor font
/// opened as `font`: the left-pointing arrow, black on white.
pub open spec fn arrow_cursor(cursor: u32, font: u32) -> XRequest {
    XRequest::CreateGlyphCursor { cursor: cursor, font: font, source_char: LEFT_PTR, mask_char: LEFT_PTR_MASK, fore: black(), back: white() }
}

/// The requests that give `window` the standard arrow cursor, made from the
/// cursor font opened as `font` into the cursor `cursor`.
pub fn set_default_cursor(window: u32, cursor: u32, font: u32) -> (reqs: Vec<XRequest>)
    ensures
        reqs@.len() == 5,
        opens_font(reqs@[0], font, cursor_font_name()),
        reqs@[1] == arrow_cursor(cursor, font),
        reqs@[2] == (XRequest::SetCursor { window: window, cursor: cursor }),
        reqs@[3] == (XRequest::CloseFont { font: font }),
        reqs@[4] == XRequest::Flush,
{
    let mut reqs: Vec<XRequest> = Vec::new();
    reqs.push(XRequest::OpenFont { font, name: cursor_font_name_bytes() });
    reqs.push(XRequest::CreateGlyphCursor { cursor, font, source_char: LEFT_PTR, mask_char: LEFT_PTR_MASK, fore: Rgb { red: 0, green: 0, blue: 0 }, back: Rgb { red: 65535, green: 65535, blue: 65535 } });
    reqs.push(XRequest::SetCursor { window, cursor });
    reqs.push(XRequest::CloseFont { font });
    reqs.push(XRequest::Flush);
    reqs
}

/// The cursor program's arrow cursor.
#[derive(Debug, Clone, Copy)]
pub struct CursorManager {
    pub cursor: u32,
}

impl CursorManager {
    /// The requests that make the arrow cursor `cursor` from the cursor font
    /// opened as `font`, followed by those that set it on `root`.
    pub fn new(root: u32, cursor: u32, font: u32) -> (r: (CursorManager, Vec<XRequest>))
        ensures
            r.0.cursor == cursor,
            r.1@.len() == 6,
            opens_font(r.1@[0], font, cursor_font_name()),
            r.1@[1] == arrow_cursor(cursor, font),
            r.1@[2] == (XRequest::CloseFont { font: font }),
            r.1@[3] == XRequest::Flush,
            r.1@[4] == (XRequest::SetCursor { window: root, cursor: cursor }),
            r.1@[5] == XRequest::Flush,
    {
        let manager = CursorManager { cursor };
        let mut reqs: Vec<XRequest> = Vec::new();
        reqs.push(XRequest::OpenFont { font, name: cursor_font_name_bytes() });
        reqs.push(XRequest::CreateGlyphCursor { cursor, font, source_char: LEFT_PTR, mask_char: LEFT_PTR_MASK, fore: Rgb { red: 0, green: 0, blue: 0 }, back: Rgb { red: 65535, green: 65535, blue: 65535 } });
        reqs.push(XRequest::CloseFont { font });
        reqs.push(XRequest::Flush);
        let mut set = manager.set(root);
        reqs.append(&mut set);
        (manager, reqs)
    }

    /// The requests that show this cursor over `window`.
    pub fn set(&self, window: u32) -> (reqs: Vec<XRequest>)
        ensures
            reqs@ == seq![XRequest::SetCursor { window: window, cursor: self.cursor }, XRequest::Flush],
    {
        let mut reqs: Vec<XRequest> = Vec::new();
        reqs.push(XRequest::SetCursor { window, cursor: self.cursor });
        reqs.push(XRequest::Flush);
        assert(reqs@ =~= seq![XRequest::SetCursor { window: window, cursor: self.cursor }, XRequest::Flush]);
        reqs
    }
}

} // verus!
