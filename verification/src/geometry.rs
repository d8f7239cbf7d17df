//! Rectangles of terminal cells.

use vstd::prelude::*;

use ratatui::layout::{Constraint, Direction, Layout};

verus! {

/// A rectangle of cells: its left upper cell and its size.
#[derive(Clone, Copy, Debug, PartialEq, Eq, Structural)]
pub struct Rect {
    pub x: u16,
    pub y: u16,
    pub width: u16,
    pub height: u16,
}

/// The sum, or the largest cell number.
pub open spec fn cell_sum(a: int, b: int) -> int {
    if a + b > u16::MAX {
        u16::MAX as int
    } else {
        a + b
    }
}

/// `area` without `pad` columns on either side; none is left where both do not fit.
pub open spec fn inset(area: Rect, pad: u16) -> Rect {
    let taken = cell_sum(pad as int, pad as int);
    Rect {
        x: cell_sum(area.x as int, pad as int) as u16,
        y: area.y,
        width: if area.width > taken {
            (area.width - taken) as u16
        } else {
            0
        },
        height: area.height,
    }
}

pub fn horizontal_inset(area: Rect, pad: u16) -> (r: Rect)
    ensures
        r == inset(area, pad),
{
    let taken: u16 = pad.saturating_add(pad);
    Rect {
        x: area.x.saturating_add(pad),
        y: area.y,
        width: area.width.saturating_sub(taken),
        height: area.height,
    }
}

// ---------------------------------------------------------------- splitting

/// How much of the axis a part asks for.
#[derive(Clone, Copy, Debug, PartialEq, Eq, Structural)]
pub enum PartSize {
    Length(u16),
    Min(u16),
    Percentage(u16),
}

/// The axis along which an area is split.
#[derive(Clone, Copy, Debug, PartialEq, Eq, Structural)]
pub enum Axis {
    Horizontal,
    Vertical,
}

/// A part spans the whole area across the axis.
pub open spec fn spans_across(part: Rect, area: Rect, axis: Axis) -> bool {
    match axis {
        Axis::Horizontal => part.y == area.y && part.height == area.height,
        Axis::Vertical => part.x == area.x && part.width == area.width,
    }
}

/// Where an area starts along the axis.
pub open spec fn start_along(area: Rect, axis: Axis) -> int {
    match axis {
        Axis::Horizontal => area.x as int,
        Axis::Vertical => area.y as int,
    }
}

/// How many cells an area has along the axis.
pub open spec fn length_along(area: Rect, axis: Axis) -> int {
    match axis {
        Axis::Horizontal => area.width as int,
        Axis::Vertical => area.height as int,
    }
}

/// A part lies within the area along the axis.
pub open spec fn lies_along(part: Rect, area: Rect, axis: Axis) -> bool {
    &&& start_along(area, axis) <= start_along(part, axis)
    &&& start_along(part, axis) + length_along(part, axis) <= cell_sum(
        start_along(area, axis),
        length_along(area, axis),
    )
}

/// The part of `len` cells that starts `from` cells into the area.
pub open spec fn part_at(area: Rect, axis: Axis, from: int, len: int) -> Rect {
    match axis {
        Axis::Horizontal => Rect { x: (area.x + from) as u16, width: len as u16, ..area },
        Axis::Vertical => Rect { y: (area.y + from) as u16, height: len as u16, ..area },
    }
}

/// The cells that a size asks for.
pub open spec fn asked(size: PartSize) -> int {
    match size {
        PartSize::Length(n) => n as int,
        PartSize::Min(n) => n as int,
        PartSize::Percentage(_) => 0,
    }
}

/// The cells that the first `n` sizes ask for.
pub open spec fn asked_upto(sizes: Seq<PartSize>, n: int) -> int
    decreases n,
{
    if n <= 0 {
        0
    } else {
        asked_upto(sizes, n - 1) + asked(sizes[n - 1])
    }
}

/// One part takes what the others leave: `k` is the only minimum among lengths.
pub open spec fn one_min(sizes: Seq<PartSize>, k: int) -> bool {
    &&& 0 <= k < sizes.len()
    &&& sizes[k] is Min
    &&& forall|i: int| 0 <= i < sizes.len() && i != k ==> (#[trigger] sizes[i]) is Length
}

/// The sizes do not ask for more cells than the area has, and the area ends within the
/// cell numbers.
pub open spec fn sizes_fit(area: Rect, axis: Axis, sizes: Seq<PartSize>) -> bool {
    &&& asked_upto(sizes, sizes.len() as int) <= length_along(area, axis)
    &&& start_along(area, axis) + length_along(area, axis) <= u16::MAX
}

/// The parts where lengths and one minimum, `k`, fit: in order and without gaps, each
/// length as asked, and the minimum with all that is left.
pub open spec fn stacked(area: Rect, axis: Axis, sizes: Seq<PartSize>, k: int) -> Seq<Rect> {
    let spare = length_along(area, axis) - asked_upto(sizes, sizes.len() as int);
    Seq::new(
        sizes.len(),
        |i: int|
            part_at(
                area,
                axis,
                asked_upto(sizes, i) + (if i > k {
                    spare
                } else {
                    0
                }),
                asked(sizes[i]) + (if i == k {
                    spare
                } else {
                    0
                }),
            ),
    )
}

/// The parts are the area from its start to its end along the axis, each where the one
/// before it ends.
pub open spec fn tiles(parts: Seq<Rect>, area: Rect, axis: Axis) -> bool {
    &&& parts.len() > 0
    &&& start_along(parts[0], axis) == start_along(area, axis)
    &&& forall|i: int|
        0 < i < parts.len() ==> start_along(#[trigger] parts[i], axis) == start_along(
            parts[i - 1],
            axis,
        ) + length_along(parts[i - 1], axis)
    &&& start_along(parts.last(), axis) + length_along(parts.last(), axis) == start_along(
        area,
        axis,
    ) + length_along(area, axis)
}

/// No part but the minimum, `k`, is longer than it asks to be, and the minimum is as long
/// as it asks to be where the area alone has room for it. A minimum above the largest
/// signed number of its bits is not held to that.
pub open spec fn sizes_kept(
    parts: Seq<Rect>,
    area: Rect,
    axis: Axis,
    sizes: Seq<PartSize>,
    k: int,
) -> bool {
    &&& forall|i: int|
        0 <= i < sizes.len() && i != k ==> length_along(#[trigger] parts[i], axis) <= asked(sizes[i])
    &&& asked(sizes[k]) <= length_along(area, axis) && asked(sizes[k]) <= i16::MAX ==> asked(
        sizes[k],
    ) <= length_along(parts[k], axis)
}

/// Two shares of the whole.
pub open spec fn two_shares(sizes: Seq<PartSize>, percent: u16) -> bool {
    percent <= 100 && sizes == seq![
        PartSize::Percentage(percent),
        PartSize::Percentage((100 - percent) as u16),
    ]
}

/// `percent` of `n`, to the nearest whole number.
pub open spec fn share(n: int, percent: int) -> int {
    (percent * n + 50) / 100
}

/// The parts of two shares: the first to the nearest cell, the second with the rest.
pub open spec fn shared(area: Rect, axis: Axis, percent: u16) -> Seq<Rect> {
    let n = length_along(area, axis);
    let first = share(n, percent as int);
    seq![part_at(area, axis, 0, first), part_at(area, axis, first, n - first)]
}

/// `ratatui::layout::Layout::split`: one part per size, in order, each over the whole
/// area across the axis and within it along the axis. Lengths and one minimum that fit
/// are met exactly, the minimum taking what is left; of two shares of the whole the
/// first is rounded to the nearest cell. Lengths and one minimum are the whole area in
/// order even where they do not fit: that parts touch weighs more than their sizes, a
/// minimum more than a length, and any size more than empty cells behind the last part.
/// So a minimum that a signed number holds, as the solver reads it, is met wherever the
/// area alone has room for it, and lengths are only ever cut. Which of them the solver cuts is left unsaid: it walks hash maps, and its
/// choice is its own.
#[verifier::external_body]
pub(crate) fn split_area(area: Rect, axis: Axis, sizes: &Vec<PartSize>) -> (r: Vec<Rect>)
    ensures
        r@.len() == sizes@.len(),
        forall|i: int| 0 <= i < r@.len() ==> spans_across(#[trigger] r@[i], area, axis),
        forall|i: int| 0 <= i < r@.len() ==> lies_along(#[trigger] r@[i], area, axis),
        forall|k: int|
            #[trigger] one_min(sizes@, k) && sizes_fit(area, axis, sizes@) ==> r@ == stacked(
                area,
                axis,
                sizes@,
                k,
            ),
        forall|k: int|
            #[trigger] one_min(sizes@, k) && start_along(area, axis) + length_along(area, axis)
                <= u16::MAX ==> tiles(r@, area, axis) && sizes_kept(r@, area, axis, sizes@, k),
        forall|percent: u16|
            #[trigger] two_shares(sizes@, percent) && start_along(area, axis) + length_along(
                area,
                axis,
            ) <= u16::MAX ==> r@ == shared(area, axis, percent),
{
    let direction = match axis {
        Axis::Horizontal => Direction::Horizontal,
        Axis::Vertical => Direction::Vertical,
    };
    let constraints = sizes.iter().map(|s| match s {
        PartSize::Length(n) => Constraint::Length(*n),
        PartSize::Min(n) => Constraint::Min(*n),
        PartSize::Percentage(n) => Constraint::Percentage(*n),
    });
    let Rect { x, y, width, height } = area;
    let whole = ratatui::layout::Rect { x, y, width, height };
    let parts = Layout::new(direction, constraints).split(whole);
    parts.iter().map(|p| Rect { x: p.x, y: p.y, width: p.width, height: p.height }).collect()
}

/// A share is never more than the whole.
pub proof fn share_is_a_part(n: int, percent: int)
    requires
        0 <= n,
        0 <= percent <= 100,
    ensures
        0 <= share(n, percent) <= n,
{
    assert(0 <= percent * n <= 100 * n) by (nonlinear_arith)
        requires
            0 <= n,
            0 <= percent <= 100,
    ;
}

/// A list pane of `percent` of the columns, to the nearest one, and the pane beside it.
pub fn side_by_side(area: Rect, percent: u16) -> (r: (Rect, Rect))
    requires
        percent <= 100,
        area.x + area.width <= u16::MAX,
    ensures
        r.0 == (Rect { width: share(area.width as int, percent as int) as u16, ..area }),
        r.1 == (Rect {
            x: (area.x + r.0.width) as u16,
            width: (area.width - r.0.width) as u16,
            ..area
        }),
{
    let mut sizes: Vec<PartSize> = Vec::new();
    sizes.push(PartSize::Percentage(percent));
    sizes.push(PartSize::Percentage(100 - percent));
    let parts = split_area(area, Axis::Horizontal, &sizes);
    proof {
        assert(sizes@ =~= seq![
            PartSize::Percentage(percent),
            PartSize::Percentage((100 - percent) as u16),
        ]);
        assert(two_shares(sizes@, percent));
        share_is_a_part(area.width as int, percent as int);
    }
    (parts[0], parts[1])
}

} // verus!
