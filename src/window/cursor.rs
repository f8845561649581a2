//! Locking the cursor to the window.
use vstd::prelude::*;

verus! {

/// How the window is to treat the cursor.
#[derive(Clone, Copy, PartialEq, Eq, Structural)]
pub struct CursorOptions {
    /// The cursor is drawn.
    pub visible: bool,
    /// The cursor is grabbed by the window and held at its centre.
    pub locked: bool,
}

/// Whether the cursor is locked to the window.
pub struct Cursor {
    locked: bool,
}

impl Cursor {
    /// Whether the cursor is locked.
    pub closed spec fn is_locked(self) -> bool {
        self.locked
    }

    /// Whether the cursor is locked.
    pub fn locked(&self) -> (r: bool)
        ensures
            r == self.is_locked(),
    {
        self.locked
    }

    /// Inverts the cursor lock. Returns how the window is to treat the cursor:
    /// hidden and grabbed at the centre when now locked, shown and free
    /// otherwise.
    pub fn invert_lock(&mut self) -> (r: CursorOptions)
        ensures
            final(self).is_locked() == !old(self).is_locked(),
            r.locked == final(self).is_locked(),
            r.visible == !final(self).is_locked(),
    {
        self.locked = !self.locked;
        CursorOptions { visible: !self.locked, locked: self.locked }
    }
}

impl Default for Cursor {
    /// An unlocked cursor.
    fn default() -> (r: Cursor)
        ensures
            !r.is_locked(),
    {
        Cursor { locked: false }
    }
}

/// Whether the cursor is to be put back at the centre of the window this
/// frame: only while it is locked.
pub fn lock_cursor_position(cursor: &Cursor) -> (r: bool)
    ensures
        r == cursor.is_locked(),
{
    cursor.locked
}

} // verus!
