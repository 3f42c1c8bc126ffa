//! Cursor positions in the terminal and their movement.
use vstd::prelude::*;
use crate::strs::{decimal, push_decimal, push_str};

verus! {

/// `v` moved by `d`, stopping at 0 and at `u16::MAX`.
pub open spec fn shift(v: u16, d: int) -> u16 {
    if v + d < 0 {
        0
    } else if v + d > u16::MAX {
        u16::MAX
    } else {
        (v + d) as u16
    }
}

/// A zero-indexed cursor position: `x` is the column, `y` the row.
#[derive(Debug, Clone, Copy, PartialEq, Eq, Structural)]
pub struct CursorPosition {
    /// Column position (horizontal, x-coordinate)
    pub x: u16,
    /// Row position (vertical, y-coordinate)
    pub y: u16,
}

fn shift_by(v: u16, d: i16) -> (r: u16)
    requires
        d != i16::MIN,
    ensures
        r == shift(v, d as int),
{
    if d >= 0 {
        v.saturating_add(d as u16)
    } else {
        v.saturating_sub((-d) as u16)
    }
}

impl CursorPosition {
    /// The position at column `x`, row `y`.
    pub fn new(x: u16, y: u16) -> (r: Self)
        ensures
            r == (CursorPosition { x, y }),
    {
        CursorPosition { x, y }
    }

    /// The top-left corner.
    pub fn origin() -> (r: Self)
        ensures
            r == (CursorPosition { x: 0, y: 0 }),
    {
        CursorPosition { x: 0, y: 0 }
    }

    /// The position as `(x, y)`.
    pub fn as_tuple(&self) -> (r: (u16, u16))
        ensures
            r == (self.x, self.y),
    {
        (self.x, self.y)
    }

    /// The position moved by the given offsets, stopping at the edges of the
    /// `u16` range.
    pub fn offset(&self, x_offset: i16, y_offset: i16) -> (r: Self)
        requires
            x_offset != i16::MIN,
            y_offset != i16::MIN,
        ensures
            r == (CursorPosition { x: shift(self.x, x_offset as int), y: shift(self.y, y_offset as int) }),
    {
        CursorPosition { x: shift_by(self.x, x_offset), y: shift_by(self.y, y_offset) }
    }

    /// The position moved right by `amount`, stopping at `u16::MAX`.
    pub fn right(&self, amount: u16) -> (r: Self)
        ensures
            r == (CursorPosition { x: shift(self.x, amount as int), y: self.y }),
    {
        CursorPosition { x: self.x.saturating_add(amount), y: self.y }
    }

    /// The position moved left by `amount`, stopping at 0.
    pub fn left(&self, amount: u16) -> (r: Self)
        ensures
            r == (CursorPosition { x: shift(self.x, -(amount as int)), y: self.y }),
    {
        CursorPosition { x: self.x.saturating_sub(amount), y: self.y }
    }

    /// The position moved down by `amount`, stopping at `u16::MAX`.
    pub fn down(&self, amount: u16) -> (r: Self)
        ensures
            r == (CursorPosition { x: self.x, y: shift(self.y, amount as int) }),
    {
        CursorPosition { x: self.x, y: self.y.saturating_add(amount) }
    }

    /// The position moved up by `amount`, stopping at 0.
    pub fn up(&self, amount: u16) -> (r: Self)
        ensures
            r == (CursorPosition { x: self.x, y: shift(self.y, -(amount as int)) }),
    {
        CursorPosition { x: self.x, y: self.y.saturating_sub(amount) }
    }

    /// The position as text: `"(x, y)"`.
    pub fn to_string(&self) -> (s: String)
        ensures
            s@ == "("@ + decimal(self.x as nat) + ", "@ + decimal(self.y as nat) + ")"@,
    {
        let mut s = String::new();
        push_str(&mut s, "(");
        push_decimal(&mut s, self.x as u64);
        push_str(&mut s, ", ");
        push_decimal(&mut s, self.y as u64);
        push_str(&mut s, ")");
        assert(s@ =~= "("@ + decimal(self.x as nat) + ", "@ + decimal(self.y as nat) + ")"@);
        s
    }
}

impl From<(u16, u16)> for CursorPosition {
    fn from(tuple: (u16, u16)) -> (r: Self) {
        CursorPosition { x: tuple.0, y: tuple.1 }
    }
}

impl vstd::std_specs::convert::FromSpecImpl<(u16, u16)> for CursorPosition {
    open spec fn obeys_from_spec() -> bool {
        true
    }

    open spec fn from_spec(tuple: (u16, u16)) -> Self {
        CursorPosition { x: tuple.0, y: tuple.1 }
    }
}

} // verus!
