//! The double-buffered rendering strategy: compare the previous frame with
//! the current one cell by cell and name exactly the cells whose glyph must
//! be redrawn — all of them under a force redraw, used once at startup. The
//! comparison is pure; the cursor moves and glyph writes it feeds happen
//! outside the library.

use vstd::prelude::*;
use crate::NUM_COLS;
use crate::NUM_ROWS;
use crate::frame::Frame;

verus! {

/// One cell the output surface must redraw, with the glyph to write there.
#[derive(Clone, Copy, PartialEq, Eq, Structural, Debug)]
pub struct CellPatch {
    pub x: usize,
    pub y: usize,
    pub glyph: char,
}

/// Column-major order on patches: `a` is emitted strictly before `b`.
pub open spec fn patch_before(a: CellPatch, b: CellPatch) -> bool {
    a.x < b.x || (a.x == b.x && a.y < b.y)
}

/// Whether some patch of `patches` targets column `x`, row `y`.
pub open spec fn patched(patches: Seq<CellPatch>, x: int, y: int) -> bool {
    exists|k: int|
        0 <= k < patches.len() && (#[trigger] patches[k]).x == x && patches[k].y == y
}

/// Compare `curr` against `last` cell by cell and return, in column-major
/// order, one patch per cell whose glyph changed — or per every cell, under
/// `force`. Each patch carries the current glyph of its cell; no cell is
/// patched twice, and an unchanged cell (without `force`) is not patched at
/// all.
pub fn diff_frames(last: &Frame, curr: &Frame, force: bool) -> (patches: Vec<CellPatch>)
    requires
        last.wf(),
        curr.wf(),
    ensures
        forall|k: int|
            0 <= k < patches@.len() ==> {
                let p = #[trigger] patches@[k];
                &&& p.x < NUM_COLS
                &&& p.y < NUM_ROWS
                &&& p.glyph == curr.at(p.x as int, p.y as int)
                &&& (force || curr.at(p.x as int, p.y as int) != last.at(p.x as int, p.y as int))
            },
        forall|x: int, y: int| #![trigger patched(patches@, x, y)]
            0 <= x < NUM_COLS && 0 <= y < NUM_ROWS && (force || curr.at(x, y) != last.at(x, y))
                ==> patched(patches@, x, y),
        forall|k: int, l: int|
            0 <= k < l < patches@.len()
                ==> patch_before(#[trigger] patches@[k], #[trigger] patches@[l]),
{
    let mut patches: Vec<CellPatch> = Vec::new();
    let mut x: usize = 0;
    while x < NUM_COLS
        invariant
            x <= NUM_COLS,
            last.wf(),
            curr.wf(),
            forall|k: int|
                0 <= k < patches@.len() ==> {
                    let p = #[trigger] patches@[k];
                    &&& p.x < NUM_COLS
                    &&& p.y < NUM_ROWS
                    &&& p.glyph == curr.at(p.x as int, p.y as int)
                    &&& (force || curr.at(p.x as int, p.y as int) != last.at(
                        p.x as int,
                        p.y as int,
                    ))
                },
            forall|cx: int, cy: int| #![trigger patched(patches@, cx, cy)]
                0 <= cx < x && 0 <= cy < NUM_ROWS && (force || curr.at(cx, cy) != last.at(cx, cy))
                    ==> patched(patches@, cx, cy),
            forall|k: int| 0 <= k < patches@.len() ==> (#[trigger] patches@[k]).x < x,
            forall|k: int, l: int|
                0 <= k < l < patches@.len()
                    ==> patch_before(#[trigger] patches@[k], #[trigger] patches@[l]),
        decreases NUM_COLS - x,
    {
        let mut y: usize = 0;
        while y < NUM_ROWS
            invariant
                x < NUM_COLS,
                y <= NUM_ROWS,
                last.wf(),
                curr.wf(),
                forall|k: int|
                    0 <= k < patches@.len() ==> {
                        let p = #[trigger] patches@[k];
                        &&& p.x < NUM_COLS
                        &&& p.y < NUM_ROWS
                        &&& p.glyph == curr.at(p.x as int, p.y as int)
                        &&& (force || curr.at(p.x as int, p.y as int) != last.at(
                            p.x as int,
                            p.y as int,
                        ))
                    },
                forall|cx: int, cy: int| #![trigger patched(patches@, cx, cy)]
                    0 <= cx < x && 0 <= cy < NUM_ROWS && (force || curr.at(cx, cy) != last.at(
                        cx,
                        cy,
                    )) ==> patched(patches@, cx, cy),
                forall|cy: int| #![trigger patched(patches@, x as int, cy)]
                    0 <= cy < y && (force || curr.at(x as int, cy) != last.at(x as int, cy))
                        ==> patched(patches@, x as int, cy),
                forall|k: int|
                    0 <= k < patches@.len() ==> (#[trigger] patches@[k]).x < x || (
                    patches@[k].x == x && patches@[k].y < y),
                forall|k: int, l: int|
                    0 <= k < l < patches@.len()
                        ==> patch_before(#[trigger] patches@[k], #[trigger] patches@[l]),
            decreases NUM_ROWS - y,
        {
            let cg = curr.get(x, y);
            let lg = last.get(x, y);
            if cg != lg || force {
                let ghost before = patches@;
                patches.push(CellPatch { x, y, glyph: cg });
                assert forall|cx: int, cy: int| #![trigger patched(patches@, cx, cy)]
                    0 <= cx < x && 0 <= cy < NUM_ROWS && (force || curr.at(cx, cy) != last.at(
                        cx,
                        cy,
                    )) implies patched(patches@, cx, cy) by {
                    assert(patched(before, cx, cy));
                    let w = choose|k: int|
                        0 <= k < before.len() && (#[trigger] before[k]).x == cx && before[k].y
                            == cy;
                    assert(patches@[w] == before[w]);
                }
                assert forall|cy: int| #![trigger patched(patches@, x as int, cy)]
                    0 <= cy < y + 1 && (force || curr.at(x as int, cy) != last.at(
                        x as int,
                        cy,
                    )) implies patched(patches@, x as int, cy) by {
                    if cy < y {
                        assert(patched(before, x as int, cy));
                        let w = choose|k: int|
                            0 <= k < before.len() && (#[trigger] before[k]).x == x && before[k].y
                                == cy;
                        assert(patches@[w] == before[w]);
                    } else {
                        assert(patches@[patches@.len() - 1].x == x && patches@[patches@.len()
                            - 1].y == cy);
                    }
                }
            }
            y = y + 1;
        }
        assert forall|cx: int, cy: int| #![trigger patched(patches@, cx, cy)]
            0 <= cx < x + 1 && 0 <= cy < NUM_ROWS && (force || curr.at(cx, cy) != last.at(
                cx,
                cy,
            )) implies patched(patches@, cx, cy) by {
            if cx == x {
                assert(patched(patches@, x as int, cy));
            }
        }
        x = x + 1;
    }
    patches
}

} // verus!
