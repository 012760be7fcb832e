//! Rectangle partitioning for the dashboard: a centered content column,
//! split vertically into header, body and footer.

use vstd::prelude::*;

verus! {

/// A rectangular region of the drawing surface, row/column addressed.
#[derive(Debug, Clone, Copy, PartialEq, Eq, Structural)]
pub struct Rect {
    pub x: u16,
    pub y: u16,
    pub width: u16,
    pub height: u16,
}

/// The three vertical regions of one frame.
#[derive(Debug, Clone, Copy, PartialEq, Eq, Structural)]
pub struct Regions {
    pub header: Rect,
    pub body: Rect,
    pub footer: Rect,
}

/// Tab strip row plus its top border.
pub const HEADER_HEIGHT: u16 = 2;

/// One row of help text.
pub const FOOTER_HEIGHT: u16 = 1;

/// The content column is centered and at most this wide.
pub const MAX_CONTENT_WIDTH: u16 = 70;

/// A rectangle whose far corner still fits the coordinate space.
pub open spec fn rect_well_formed(r: Rect) -> bool {
    &&& r.x + r.width <= u16::MAX
    &&& r.y + r.height <= u16::MAX
}

/// Width of the centered content column: the area minus one margin column
/// on each side, capped at the maximum content width.
pub open spec fn spec_content_width(w: u16) -> int {
    let avail = if w >= 2 {
        w - 2
    } else {
        0int
    };
    if avail <= MAX_CONTENT_WIDTH {
        avail
    } else {
        MAX_CONTENT_WIDTH as int
    }
}

/// Left edge of the centered content column.
pub open spec fn spec_content_x(area: Rect) -> int {
    area.x + (area.width - spec_content_width(area.width)) / 2
}

/// The header gets its fixed height, then the footer, and the body takes
/// whatever remains; a very short area shrinks them in that order.
pub open spec fn spec_header_height(h: u16) -> int {
    if h >= HEADER_HEIGHT {
        HEADER_HEIGHT as int
    } else {
        h as int
    }
}

pub open spec fn spec_footer_height(h: u16) -> int {
    let rest = h - spec_header_height(h);
    if rest >= FOOTER_HEIGHT {
        FOOTER_HEIGHT as int
    } else {
        rest
    }
}

pub open spec fn spec_body_height(h: u16) -> int {
    h - spec_header_height(h) - spec_footer_height(h)
}

/// The exact frame partition for an area.
pub open spec fn spec_layout(area: Rect) -> Regions {
    let cx = spec_content_x(area) as u16;
    let cw = spec_content_width(area.width) as u16;
    let hh = spec_header_height(area.height) as u16;
    let bh = spec_body_height(area.height) as u16;
    let fh = spec_footer_height(area.height) as u16;
    Regions {
        header: Rect { x: cx, y: area.y, width: cw, height: hh },
        body: Rect { x: cx, y: (area.y + hh) as u16, width: cw, height: bh },
        footer: Rect { x: cx, y: (area.y + hh + bh) as u16, width: cw, height: fh },
    }
}

/// Partitions a drawing area into header, body and footer regions, all in
/// one centered column of bounded width.  The three heights always sum to
/// the area's height, and with at least three rows the header gets two
/// rows and the footer one.
pub fn layout_regions(area: Rect) -> (r: Regions)
    requires
        rect_well_formed(area),
    ensures
        r == spec_layout(area),
        r.header.height + r.body.height + r.footer.height == area.height,
        r.header.x == r.body.x && r.body.x == r.footer.x,
        r.header.width == r.body.width && r.body.width == r.footer.width,
        r.body.y == r.header.y + r.header.height,
        r.footer.y == r.body.y + r.body.height,
        r.header.width <= MAX_CONTENT_WIDTH,
        area.height >= 3 ==> r.header.height == HEADER_HEIGHT && r.footer.height == FOOTER_HEIGHT
            && r.body.height == area.height - 3,
        rect_well_formed(r.header) && rect_well_formed(r.body) && rect_well_formed(r.footer),
{
    let avail: u16 = if area.width >= 2 {
        area.width - 2
    } else {
        0
    };
    let cw: u16 = if avail <= MAX_CONTENT_WIDTH {
        avail
    } else {
        MAX_CONTENT_WIDTH
    };
    let cx: u16 = area.x + (area.width - cw) / 2;
    let hh: u16 = if area.height >= HEADER_HEIGHT {
        HEADER_HEIGHT
    } else {
        area.height
    };
    let rest: u16 = area.height - hh;
    let fh: u16 = if rest >= FOOTER_HEIGHT {
        FOOTER_HEIGHT
    } else {
        rest
    };
    let bh: u16 = rest - fh;
    Regions {
        header: Rect { x: cx, y: area.y, width: cw, height: hh },
        body: Rect { x: cx, y: area.y + hh, width: cw, height: bh },
        footer: Rect { x: cx, y: area.y + hh + bh, width: cw, height: fh },
    }
}

} // verus!
