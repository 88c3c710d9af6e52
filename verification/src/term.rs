//! Terminal window sizes.

use vstd::prelude::*;

verus! {

/// Columns held back from the window when a relay starts. The child then
/// sees a terminal one column narrower than the attaching client's window,
/// which keeps some terminal emulators from wrapping the last column.
pub const RELAY_COLUMN_MARGIN: u16 = 1;

/// The size of a terminal window, in character cells.
#[derive(Clone, Copy, Debug, PartialEq, Eq, Structural)]
pub struct Size {
    /// Number of columns
    pub cols: u16,
    /// Number of rows
    pub rows: u16,
}

/// A window size as it travels in a request: rows and columns as 32-bit numbers.
#[derive(Clone, Copy, Debug, PartialEq, Eq, Structural)]
pub struct WinSize {
    pub rows: u32,
    pub cols: u32,
}

/// The low 16 bits of a dimension sent in a request.
pub open spec fn low16(n: u32) -> u16 {
    (n % 0x1_0000) as u16
}

impl Size {
    /// The size that a request asks for. A dimension that does not fit in
    /// 16 bits keeps its low 16 bits.
    pub open spec fn spec_of_request(size: WinSize) -> Size {
        Size { rows: low16(size.rows), cols: low16(size.cols) }
    }

    /// The size that the child's terminal gets when a relay starts on a
    /// window of this size: the same rows, and `RELAY_COLUMN_MARGIN` fewer
    /// columns, but never fewer than none.
    pub open spec fn spec_relay(self) -> Size {
        Size {
            rows: self.rows,
            cols: if self.cols >= RELAY_COLUMN_MARGIN {
                (self.cols - RELAY_COLUMN_MARGIN) as u16
            } else {
                0
            },
        }
    }

    pub fn of_request(size: &WinSize) -> (r: Size)
        ensures
            r == Size::spec_of_request(*size),
    {
        Size { rows: (size.rows % 0x1_0000) as u16, cols: (size.cols % 0x1_0000) as u16 }
    }

    /// The size to use for a request: the one it carries, or else `fallback`.
    pub fn of_request_or(size: Option<WinSize>, fallback: Size) -> (r: Size)
        ensures
            r == match size {
                Some(s) => Size::spec_of_request(s),
                None => fallback,
            },
    {
        match size {
            Some(s) => Size::of_request(&s),
            None => fallback,
        }
    }

    pub fn relay(&self) -> (r: Size)
        ensures
            r == self.spec_relay(),
    {
        let cols: u16 = if self.cols >= RELAY_COLUMN_MARGIN {
            self.cols - RELAY_COLUMN_MARGIN
        } else {
            0
        };
        Size { rows: self.rows, cols }
    }

    /// The same size as a request carries it.
    pub fn to_request(&self) -> (r: WinSize)
        ensures
            r.rows == self.rows,
            r.cols == self.cols,
            Size::spec_of_request(r) == *self,
    {
        WinSize { rows: self.rows as u32, cols: self.cols as u32 }
    }
}

} // verus!
