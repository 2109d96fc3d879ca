//! From an alignment, a box and a measured block to the point where the block
//! is drawn.

use crate::geometry::{Alignment, AxisAlignment, Offset, Size};
use vstd::prelude::*;

verus! {

/// The top-left corner of a block to draw, in canvas coordinates. Wide enough
/// for any offset, box and measurement, so resolving never overflows.
#[derive(Clone, Copy, Debug, PartialEq, Eq, Structural)]
pub struct Position {
    pub x: i64,
    pub y: i64,
}

/// Where a block of length `measured` starts along one axis, in a box that
/// starts at `offset` and is `target` long.
///
/// The division rounds down, also when the block is longer than the box: the
/// result may then lie before the box, and the block is drawn past it on both
/// sides.
pub open spec fn resolve_axis(
    alignment: AxisAlignment,
    offset: int,
    target: int,
    measured: int,
) -> int {
    match alignment {
        AxisAlignment::Start => offset,
        AxisAlignment::Center => offset + (target - measured) / 2,
        AxisAlignment::End => offset + target - measured,
    }
}

fn resolve_one(alignment: AxisAlignment, offset: i32, target: i32, measured: i32) -> (start: i64)
    ensures
        start == resolve_axis(alignment, offset as int, target as int, measured as int),
{
    match alignment {
        AxisAlignment::Start => offset as i64,
        AxisAlignment::Center => {
            let slack: i64 = target as i64 - measured as i64;
            let half: i64 = if slack % 2 < 0 {
                slack / 2 - 1
            } else {
                slack / 2
            };
            offset as i64 + half
        },
        AxisAlignment::End => offset as i64 + target as i64 - measured as i64,
    }
}

/// Resolves each axis on its own.
pub fn resolve_position(
    alignment: Alignment,
    offset: Offset,
    target_size: Size,
    measured_size: Size,
) -> (position: Position)
    ensures
        position.x == resolve_axis(
            alignment.x,
            offset.x as int,
            target_size.width as int,
            measured_size.width as int,
        ),
        position.y == resolve_axis(
            alignment.y,
            offset.y as int,
            target_size.height as int,
            measured_size.height as int,
        ),
{
    Position {
        x: resolve_one(alignment.x, offset.x, target_size.width, measured_size.width),
        y: resolve_one(alignment.y, offset.y, target_size.height, measured_size.height),
    }
}

/// Aligned to the start, a block begins where its box begins. Aligned to the
/// end, its far edge is the far edge of the box. Centred, the room before the
/// block and the room after it differ by at most one pixel, the extra one
/// lying after.
pub proof fn lemma_alignment_edges(offset: int, target: int, measured: int)
    ensures
        resolve_axis(AxisAlignment::Start, offset, target, measured) == offset,
        resolve_axis(AxisAlignment::End, offset, target, measured) + measured == offset + target,
        ({
            let before = resolve_axis(AxisAlignment::Center, offset, target, measured) - offset;
            let after = target - measured - before;
            before <= after <= before + 1
        }),
{
}

} // verus!
