//! Frame geometry: rectangles and the splits the composer uses.
//!
//! Splits are exact integer arithmetic: a percentage split gives the
//! first part the floor of the scaled extent and the remainder to the
//! second, so the parts always tile the whole.

use vstd::prelude::*;

verus! {

/// A rectangle of terminal cells.
#[derive(Clone, Copy, PartialEq, Eq, Structural, Debug)]
pub struct Rect {
    pub x: u16,
    pub y: u16,
    pub width: u16,
    pub height: u16,
}

/// A rectangle whose far edges stay within the coordinate range.
pub open spec fn rect_wf(r: Rect) -> bool {
    r.x + r.width <= u16::MAX && r.y + r.height <= u16::MAX
}

/// The rectangle shrunk by `margin` cells on every side; a rectangle
/// thinner than twice the margin shrinks to nothing at its corner.
pub open spec fn spec_inner(r: Rect, margin: u16) -> Rect {
    if r.width >= 2 * margin && r.height >= 2 * margin {
        Rect {
            x: (r.x + margin) as u16,
            y: (r.y + margin) as u16,
            width: (r.width - 2 * margin) as u16,
            height: (r.height - 2 * margin) as u16,
        }
    } else {
        Rect { x: r.x, y: r.y, width: 0, height: 0 }
    }
}

/// The top part of a vertical percentage split: same x span, height
/// scaled by pct and rounded down.
pub open spec fn spec_split_v(r: Rect, pct: u16) -> (Rect, Rect) {
    let top_h = r.height * pct / 100;
    (
        Rect { x: r.x, y: r.y, width: r.width, height: top_h as u16 },
        Rect {
            x: r.x,
            y: (r.y + top_h) as u16,
            width: r.width,
            height: (r.height - top_h) as u16,
        },
    )
}

/// A half-and-half horizontal split: the left part gets the floor of
/// half the width, the right part the rest.
pub open spec fn spec_split_h_half(r: Rect) -> (Rect, Rect) {
    let left_w = r.width / 2;
    (
        Rect { x: r.x, y: r.y, width: left_w as u16, height: r.height },
        Rect {
            x: (r.x + left_w) as u16,
            y: r.y,
            width: (r.width - left_w) as u16,
            height: r.height,
        },
    )
}

/// Leading, body and trailing regions of a vertical stack: the leading
/// and trailing heights are honoured as far as the rectangle allows,
/// the body gets the rest.
pub open spec fn spec_split_regions(r: Rect, lead: u16, trail: u16) -> (Rect, Rect, Rect) {
    let lead_h = if lead <= r.height {
        lead
    } else {
        r.height
    };
    let trail_h = if trail <= r.height - lead_h {
        trail
    } else {
        (r.height - lead_h) as u16
    };
    let body_h = (r.height - lead_h - trail_h) as u16;
    (
        Rect { x: r.x, y: r.y, width: r.width, height: lead_h },
        Rect { x: r.x, y: (r.y + lead_h) as u16, width: r.width, height: body_h },
        Rect {
            x: r.x,
            y: (r.y + lead_h + body_h) as u16,
            width: r.width,
            height: trail_h,
        },
    )
}

/// The blank bands that center `lines` rows inside `height` rows:
/// returns the rows left blank above and below. When the content does
/// not fit, both bands are empty.
pub fn center_vert(height: u16, lines: u16) -> (r: (u16, u16))
    ensures
        r == spec_center_vert(height, lines),
        lines <= height ==> r.0 + lines + r.1 == height,
        r.1 == r.0 || r.1 == r.0 + 1,
{
    if lines <= height {
        let lead = (height - lines) / 2;
        let trail = height - lines - lead;
        (lead, trail)
    } else {
        (0, 0)
    }
}

/// The centering bands as a function of the extents.
pub open spec fn spec_center_vert(height: u16, lines: u16) -> (u16, u16) {
    if lines <= height {
        let lead = (height - lines) / 2;
        (lead as u16, (height - lines - lead) as u16)
    } else {
        (0u16, 0u16)
    }
}

/// Shrinks a rectangle by a uniform margin.
pub fn inner_rect(r: Rect, margin: u16) -> (o: Rect)
    requires
        rect_wf(r),
        margin <= 100,
    ensures
        o == spec_inner(r, margin),
        rect_wf(o),
{
    if r.width >= 2 * margin && r.height >= 2 * margin {
        Rect {
            x: r.x + margin,
            y: r.y + margin,
            width: r.width - 2 * margin,
            height: r.height - 2 * margin,
        }
    } else {
        Rect { x: r.x, y: r.y, width: 0, height: 0 }
    }
}

/// Splits a rectangle vertically at `pct` percent: the parts share the
/// x span and tile the height exactly.
pub fn split_v_pct(r: Rect, pct: u16) -> (pair: (Rect, Rect))
    requires
        rect_wf(r),
        pct <= 100,
    ensures
        pair == spec_split_v(r, pct),
        pair.0.height + pair.1.height == r.height,
        pair.1.y == r.y + pair.0.height,
        rect_wf(pair.0) && rect_wf(pair.1),
{
    proof {
        assert(r.height * pct <= 65535 * 100) by (nonlinear_arith)
            requires
                r.height <= 65535,
                pct <= 100,
        ;
    }
    let top_h_wide: u32 = (r.height as u32) * (pct as u32) / 100;
    proof {
        assert(r.height * pct <= r.height * 100) by (nonlinear_arith)
            requires
                pct <= 100,
                r.height >= 0,
        ;
        assert(r.height * pct / 100 <= r.height * 100 / 100) by {
            vstd::arithmetic::div_mod::lemma_div_is_ordered(
                (r.height * pct) as int,
                (r.height * 100) as int,
                100,
            );
        }
        assert(r.height * 100 / 100 == r.height) by {
            vstd::arithmetic::div_mod::lemma_div_by_multiple(r.height as int, 100);
        }
    }
    let top_h: u16 = top_h_wide as u16;
    (
        Rect { x: r.x, y: r.y, width: r.width, height: top_h },
        Rect { x: r.x, y: r.y + top_h, width: r.width, height: r.height - top_h },
    )
}

/// Splits a rectangle into equal left and right halves, the right half
/// taking the odd cell.
pub fn split_h_half(r: Rect) -> (pair: (Rect, Rect))
    requires
        rect_wf(r),
    ensures
        pair == spec_split_h_half(r),
        pair.0.width + pair.1.width == r.width,
        pair.1.x == r.x + pair.0.width,
        rect_wf(pair.0) && rect_wf(pair.1),
{
    let left_w = r.width / 2;
    (
        Rect { x: r.x, y: r.y, width: left_w, height: r.height },
        Rect { x: r.x + left_w, y: r.y, width: r.width - left_w, height: r.height },
    )
}

/// Splits a rectangle into leading, body and trailing regions; the
/// three tile the height exactly.
pub fn split_regions(r: Rect, lead: u16, trail: u16) -> (parts: (Rect, Rect, Rect))
    requires
        rect_wf(r),
    ensures
        parts == spec_split_regions(r, lead, trail),
        parts.0.height + parts.1.height + parts.2.height == r.height,
        parts.1.y == r.y + parts.0.height,
        parts.2.y == parts.1.y + parts.1.height,
        rect_wf(parts.0) && rect_wf(parts.1) && rect_wf(parts.2),
{
    let lead_h = if lead <= r.height {
        lead
    } else {
        r.height
    };
    let trail_h = if trail <= r.height - lead_h {
        trail
    } else {
        r.height - lead_h
    };
    let body_h = r.height - lead_h - trail_h;
    (
        Rect { x: r.x, y: r.y, width: r.width, height: lead_h },
        Rect { x: r.x, y: r.y + lead_h, width: r.width, height: body_h },
        Rect { x: r.x, y: r.y + lead_h + body_h, width: r.width, height: trail_h },
    )
}

} // verus!
