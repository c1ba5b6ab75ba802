use vstd::prelude::*;

verus! {

/// A rectangle on the screen: its top-left corner and its size.
#[derive(Debug, Clone, Copy, PartialEq, Eq)]
pub struct Rect {
    pub x: i16,
    pub y: i16,
    pub width: u16,
    pub height: u16,
}

/// A color as the X server takes it for cursors: 16 bits per channel.
#[derive(Debug, Clone, Copy, PartialEq, Eq)]
pub struct Rgb {
    pub red: u16,
    pub green: u16,
    pub blue: u16,
}

/// The time stamp that stands for the server's current time.
pub const CURRENT_TIME: u32 = 0;

/// Which events a window asks the X server for.
#[derive(Debug, Clone, Copy, PartialEq, Eq)]
pub struct EventSelection {
    pub substructure_redirect: bool,
    pub substructure_notify: bool,
    pub structure_notify: bool,
    pub exposure: bool,
    pub button_press: bool,
    pub button_release: bool,
    pub pointer_motion: bool,
    pub property_change: bool,
}

impl EventSelection {
    /// No events at all.
    pub open spec fn none_spec() -> EventSelection {
        EventSelection {
            substructure_redirect: false,
            substructure_notify: false,
            structure_notify: false,
            exposure: false,
            button_press: false,
            button_release: false,
            pointer_motion: false,
            property_change: false,
        }
    }

    #[verifier::when_used_as_spec(none_spec)]
    pub fn none() -> (e: EventSelection)
        ensures
            e == EventSelection::none_spec(),
    {
        EventSelection {
            substructure_redirect: false,
            substructure_notify: false,
            structure_notify: false,
            exposure: false,
            button_press: false,
            button_release: false,
            pointer_motion: false,
            property_change: false,
        }
    }
}

/// The changes that a configure request asks for; `None` leaves a value as it is.
#[derive(Debug, Clone, Copy, PartialEq, Eq)]
pub struct WindowChanges {
    pub x: Option<i32>,
    pub y: Option<i32>,
    pub width: Option<u32>,
    pub height: Option<u32>,
    /// Put the window above its siblings.
    pub raise: bool,
}

impl WindowChanges {
    /// Changes that only raise a window above its siblings.
    pub open spec fn raise_only_spec() -> WindowChanges {
        WindowChanges { x: None, y: None, width: None, height: None, raise: true }
    }

    #[verifier::when_used_as_spec(raise_only_spec)]
    pub fn raise_only() -> (c: WindowChanges)
        ensures
            c == WindowChanges::raise_only_spec(),
    {
        WindowChanges { x: None, y: None, width: None, height: None, raise: true }
    }
}

/// One request to the X server. The library decides which requests to send
/// and in which order; the caller sends them over its connection.
#[derive(Debug)]
pub enum XRequest {
    /// A window of class input-output; `visual` 0 takes the parent's visual.
    CreateWindow { window: u32, parent: u32, rect: Rect, background_pixel: u32, events: EventSelection, override_redirect: bool, visual: u32 },
    CreateGc { gc: u32, drawable: u32, foreground: u32, background: Option<u32> },
    ReparentWindow { window: u32, parent: u32, x: i16, y: i16 },
    ConfigureWindow { window: u32, changes: WindowChanges },
    MapWindow { window: u32 },
    UnmapWindow { window: u32 },
    /// Give the keyboard focus to `window` (reverting to the pointer root).
    SetInputFocus { window: u32 },
    FillRectangle { drawable: u32, gc: u32, rect: Rect },
    DrawText { drawable: u32, gc: u32, x: i16, y: i16, text: Vec<u8> },
    OpenFont { font: u32, name: Vec<u8> },
    /// A cursor from the glyphs `source_char` and `mask_char` of `font`,
    /// drawn in `fore` on `back`.
    CreateGlyphCursor { cursor: u32, font: u32, source_char: u16, mask_char: u16, fore: Rgb, back: Rgb },
    SetCursor { window: u32, cursor: u32 },
    SelectEvents { window: u32, events: EventSelection },
    CloseFont { font: u32 },
    /// Ask the client owning `window` to close it: a 32-bit `WM_PROTOCOLS`
    /// client message whose data are `delete_atom`, `time`, then three zeros.
    SendDeleteWindow { window: u32, delete_atom: u32, time: u32 },
    /// Replace the property `property` of `window` by the list of atoms `atoms`.
    SetAtomProperty { window: u32, property: u32, atoms: Vec<u32> },
    Flush,
}

/// `r` draws `text` at (`x`, `y`) on `drawable` with `gc`.
pub open spec fn draws_text(r: XRequest, drawable: u32, gc: u32, x: i16, y: i16, text: Seq<u8>) -> bool {
    r matches XRequest::DrawText { drawable: d, gc: g, x: a, y: b, text: t } && d == drawable && g == gc && a == x
        && b == y && t@ == text
}

/// `r` replaces the property `property` of `window` by the atoms `atoms`.
pub open spec fn sets_atoms(r: XRequest, window: u32, property: u32, atoms: Seq<u32>) -> bool {
    r matches XRequest::SetAtomProperty { window: w, property: p, atoms: a } && w == window && p == property && a@ == atoms
}

/// `r` opens the font `name` as `font`.
pub open spec fn opens_font(r: XRequest, font: u32, name: Seq<u8>) -> bool {
    r matches XRequest::OpenFont { font: f, name: n } && f == font && n@ == name
}

/// The bytes of `Exit`.
pub open spec fn exit_label() -> Seq<u8> {
    seq![69u8, 120u8, 105u8, 116u8]
}

/// The bytes of `Terminal`.
pub open spec fn terminal_label() -> Seq<u8> {
    seq![84u8, 101u8, 114u8, 109u8, 105u8, 110u8, 97u8, 108u8]
}

/// The bytes of `cursor`, the name of X's cursor font.
pub open spec fn cursor_font_name() -> Seq<u8> {
    seq![99u8, 117u8, 114u8, 115u8, 111u8, 114u8]
}

pub fn exit_label_bytes() -> (b: Vec<u8>)
    ensures
        b@ == exit_label(),
{
    let b: Vec<u8> = vec![69u8, 120u8, 105u8, 116u8];
    assert(b@ =~= exit_label());
    b
}

pub fn terminal_label_bytes() -> (b: Vec<u8>)
    ensures
        b@ == terminal_label(),
{
    let b: Vec<u8> = vec![84u8, 101u8, 114u8, 109u8, 105u8, 110u8, 97u8, 108u8];
    assert(b@ =~= terminal_label());
    b
}

pub fn cursor_font_name_bytes() -> (b: Vec<u8>)
    ensures
        b@ == cursor_font_name(),
{
    let b: Vec<u8> = vec![99u8, 117u8, 114u8, 115u8, 111u8, 114u8];
    assert(b@ =~= cursor_font_name());
    b
}

} // verus!
