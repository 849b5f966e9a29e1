use vstd::prelude::*;

use crate::terrain::{clamp_slice, Terrain, TerrainView};

verus! {

/// The slice controller as the host sees it: the host registers it so that
/// scroll input reaches `scroll_events`.
pub struct SlicePlugin;

/// How a scroll amount is measured.
#[derive(Debug, Clone, Copy, PartialEq, Eq, Structural)]
pub enum ScrollUnit {
    Line,
    Pixel,
}

/// One scroll of the input device, its vertical amount in whole units.
#[derive(Debug, Clone, Copy, PartialEq, Eq, Structural)]
pub struct ScrollEvent {
    pub unit: ScrollUnit,
    pub y: i16,
}

/// The slice after one event: line scrolls move it, pixel scrolls do not.
pub open spec fn scrolled(slice: int, size_y: int, e: ScrollEvent) -> int {
    if e.unit is Line {
        clamp_slice(slice + e.y, size_y)
    } else {
        slice
    }
}

/// The slice after the events `es`, in order.
pub open spec fn slice_after(slice: int, size_y: int, es: Seq<ScrollEvent>) -> int
    decreases es.len(),
{
    if es.len() == 0 {
        slice
    } else {
        scrolled(slice_after(slice, size_y, es.drop_last()), size_y, es.last())
    }
}

/// Whether some event of `es` moved the slice.
pub open spec fn slice_moved(slice: int, size_y: int, es: Seq<ScrollEvent>) -> bool
    decreases es.len(),
{
    if es.len() == 0 {
        false
    } else {
        let before = slice_after(slice, size_y, es.drop_last());
        slice_moved(slice, size_y, es.drop_last()) || scrolled(before, size_y, es.last())
            != before
    }
}

/// Applies the scroll events to the slice in order. Each line scroll moves
/// the slice by its amount, clamped to the valid range; a move makes the
/// terrain dirty.
pub fn scroll_events(terrain: &mut Terrain, events: &Vec<ScrollEvent>)
    requires
        old(terrain)@.valid(),
    ensures
        final(terrain)@.valid(),
        final(terrain)@ == (TerrainView {
            slice: slice_after(old(terrain)@.slice, old(terrain)@.size_y, events@),
            dirty: old(terrain)@.dirty || slice_moved(
                old(terrain)@.slice,
                old(terrain)@.size_y,
                events@,
            ),
            ..old(terrain)@
        }),
{
    let ghost t0 = terrain@;
    let mut i: usize = 0;
    while i < events.len()
        invariant
            i <= events@.len(),
            terrain@.valid(),
            terrain@ == (TerrainView {
                slice: slice_after(t0.slice, t0.size_y, events@.take(i as int)),
                dirty: t0.dirty || slice_moved(t0.slice, t0.size_y, events@.take(i as int)),
                ..t0
            }),
        decreases events@.len() - i,
    {
        let ev = events[i];
        proof {
            assert(events@.take(i + 1).drop_last() =~= events@.take(i as int));
        }
        match ev.unit {
            ScrollUnit::Line => {
                terrain.increment_slice(ev.y as i32);
            },
            ScrollUnit::Pixel => {},
        }
        i = i + 1;
    }
    proof {
        assert(events@.take(events@.len() as int) =~= events@);
    }
}

} // verus!
