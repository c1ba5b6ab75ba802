use vstd::prelude::*;

verus! {

/// The pointer as the window manager last saw it.
#[derive(Debug, Clone, Copy, PartialEq, Eq, Default)]
pub struct Pointer {
    pub x: i16,
    pub y: i16,
    pub left_pressed: bool,
}

impl Pointer {
    /// A pointer at the origin with no button held.
    pub fn new() -> (p: Pointer)
        ensures
            p.x == 0,
            p.y == 0,
            !p.left_pressed,
    {
        Pointer { x: 0, y: 0, left_pressed: false }
    }

    /// Moves the pointer; the button state is kept.
    pub fn move_to(&mut self, x: i16, y: i16)
        ensures
            final(self).x == x,
            final(self).y == y,
            final(self).left_pressed == old(self).left_pressed,
    {
        self.x = x;
        self.y = y;
    }

    /// Records that the left button went down; the position is kept.
    pub fn press(&mut self)
        ensures
            final(self).left_pressed,
            final(self).x == old(self).x,
            final(self).y == old(self).y,
    {
        self.left_pressed = true;
    }

    /// Records that the left button went up; the position is kept.
    pub fn release(&mut self)
        ensures
            !final(self).left_pressed,
            final(self).x == old(self).x,
            final(self).y == old(self).y,
    {
        self.left_pressed = false;
    }
}

} // verus!
