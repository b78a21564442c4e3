//! Where on the drawing surface the header line and the table go.

use vstd::prelude::*;

verus! {

/// The free cells kept on every side of the surface.
pub const MARGIN: u16 = 1;

/// The lines that the header takes.
pub const HEADER_LINES: u16 = 1;

/// A rectangle of cells: a corner and a size.
#[derive(Clone, Copy, Debug, PartialEq, Eq, Structural)]
pub struct Area {
    pub x: u16,
    pub y: u16,
    pub width: u16,
    pub height: u16,
}

impl Area {
    /// The rectangle without cells at the origin.
    pub open spec fn nothing() -> Area {
        Area { x: 0, y: 0, width: 0, height: 0 }
    }

    /// Whether the far edges of the rectangle can be addressed.
    pub open spec fn on_grid(self) -> bool {
        self.x + self.width <= u16::MAX && self.y + self.height <= u16::MAX
    }

    /// Whether every cell of `other` is a cell of this rectangle.
    pub open spec fn covers(self, other: Area) -> bool {
        other.width == 0 || other.height == 0 || {
            &&& self.x <= other.x
            &&& other.x + other.width <= self.x + self.width
            &&& self.y <= other.y
            &&& other.y + other.height <= self.y + self.height
        }
    }

    /// What is left of the rectangle inside the margin. A rectangle that is too small
    /// for the margin, or that does not lie on the grid, leaves nothing.
    pub open spec fn interior(self) -> Area {
        if self.on_grid() && self.width >= 2 * MARGIN && self.height >= 2 * MARGIN {
            Area {
                x: (self.x + MARGIN) as u16,
                y: (self.y + MARGIN) as u16,
                width: (self.width - 2 * MARGIN) as u16,
                height: (self.height - 2 * MARGIN) as u16,
            }
        } else {
            Area::nothing()
        }
    }
}

/// The two regions of a frame.
#[derive(Clone, Copy, Debug, PartialEq, Eq, Structural)]
pub struct Regions {
    /// The line that names the process.
    pub header: Area,
    /// The peer table.
    pub table: Area,
}

/// The regions on a surface: inside the margin, the header takes the first line and
/// the table all lines below it. On a surface without a line inside the margin both
/// are empty.
pub open spec fn regions_of(surface: Area) -> Regions {
    let inner = surface.interior();
    let lines = if inner.height < HEADER_LINES {
        inner.height
    } else {
        HEADER_LINES
    };
    Regions {
        header: Area { x: inner.x, y: inner.y, width: inner.width, height: lines },
        table: Area {
            x: inner.x,
            y: (inner.y + lines) as u16,
            width: inner.width,
            height: (inner.height - lines) as u16,
        },
    }
}

/// Splits the surface into the header line and the table.
pub fn split_surface(surface: Area) -> (regions: Regions)
    ensures
        regions == regions_of(surface),
{
    let on_grid: bool = surface.width <= u16::MAX - surface.x && surface.height <= u16::MAX
        - surface.y;
    let inner = if on_grid && surface.width >= 2 * MARGIN && surface.height >= 2 * MARGIN {
        Area {
            x: surface.x + MARGIN,
            y: surface.y + MARGIN,
            width: surface.width - 2 * MARGIN,
            height: surface.height - 2 * MARGIN,
        }
    } else {
        Area { x: 0, y: 0, width: 0, height: 0 }
    };
    let lines: u16 = if inner.height < HEADER_LINES {
        inner.height
    } else {
        HEADER_LINES
    };
    Regions {
        header: Area { x: inner.x, y: inner.y, width: inner.width, height: lines },
        table: Area {
            x: inner.x,
            y: inner.y + lines,
            width: inner.width,
            height: inner.height - lines,
        },
    }
}

/// The header and the table lie on the surface, one below the other, and together
/// they fill what the margin leaves of it.
pub proof fn lemma_regions_fill_interior(surface: Area)
    ensures
        ({
            let regions = regions_of(surface);
            let inner = surface.interior();
            &&& surface.covers(regions.header)
            &&& surface.covers(regions.table)
            &&& regions.header.x == inner.x && regions.table.x == inner.x
            &&& regions.header.width == inner.width && regions.table.width == inner.width
            &&& regions.header.y == inner.y
            &&& regions.table.y == regions.header.y + regions.header.height
            &&& regions.header.height + regions.table.height == inner.height
            &&& regions.header.height <= HEADER_LINES
            &&& inner.height >= HEADER_LINES ==> regions.header.height == HEADER_LINES
        }),
{
}

} // verus!
