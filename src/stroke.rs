use vstd::prelude::*;
use line_drawing::Bresenham;

verus! {

/// The point `p` with 64-bit coordinates.
pub open spec fn widen(p: (i32, i32)) -> (i64, i64) {
    (p.0 as i64, p.1 as i64)
}

/// The points of Bresenham's line from `start` to `end`, in order.
pub uninterp spec fn line_points(start: (i32, i32), end: (i32, i32)) -> Seq<(i64, i64)>;

/// Absolute value.
pub open spec fn abs(v: int) -> int {
    if v < 0 {
        -v
    } else {
        v
    }
}

/// Whether `points` starts at `start`, ends at `end` and holds one point more
/// than the steps along the longer axis between them.
pub open spec fn line_shape(start: (i32, i32), end: (i32, i32), points: Seq<(i64, i64)>) -> bool {
    &&& points.len() == 1 + if abs(end.0 - start.0) >= abs(end.1 - start.1) {
        abs(end.0 - start.0)
    } else {
        abs(end.1 - start.1)
    }
    &&& points[0] == widen(start)
    &&& points[points.len() - 1] == widen(end)
}

/// Relies on line_drawing's Bresenham iterator over 64-bit coordinates,
/// collected: it yields both end points, first `start` and last `end`, and one
/// point for each step along the longer axis. The differences and the error
/// term of two 32-bit points stay far inside 64 bits.
#[verifier::external_body]
fn trace(start: (i32, i32), end: (i32, i32)) -> (r: Vec<(i64, i64)>)
    ensures
        r@ == line_points(start, end),
        line_shape(start, end, r@),
{
    Bresenham::new((start.0 as i64, start.1 as i64), (end.0 as i64, end.1 as i64)).collect::<Vec<(i64, i64)>>()
}

/// Number of cells that one drawn point stands for: four with symmetry, one
/// without.
pub open spec fn mirror_count(sym: bool) -> int {
    if sym {
        4
    } else {
        1
    }
}

/// The `m`-th image of `p` on a grid `w` wide and `h` high, reflected about the
/// grid's integer centre `(w / 2, h / 2)`: the point itself, its mirror across
/// the vertical axis, across the horizontal axis, and through the centre.
pub open spec fn mirrored(p: (i64, i64), m: int, w: int, h: int) -> (int, int) {
    let rx = 2 * (w / 2) - p.0;
    let ry = 2 * (h / 2) - p.1;
    if m == 0 {
        (p.0 as int, p.1 as int)
    } else if m == 1 {
        (rx, p.1 as int)
    } else if m == 2 {
        (p.0 as int, ry)
    } else {
        (rx, ry)
    }
}

/// Position in a row-major buffer of the cell at `(x, y)`, on a grid `w` wide.
pub open spec fn flat_index(x: int, y: int, w: int) -> int {
    y * w + x
}

/// Whether drawing the point `p` touches buffer position `j`: some image of `p`
/// lands there. Images whose position falls outside the buffer touch nothing.
pub open spec fn point_hits(p: (i64, i64), w: int, h: int, sym: bool, j: int) -> bool {
    exists|m: int|
        0 <= m < mirror_count(sym) && flat_index(
            #[trigger] mirrored(p, m, w, h).0,
            mirrored(p, m, w, h).1,
            w,
        ) == j
}

/// Whether drawing all of `points` touches buffer position `j`.
pub open spec fn stroke_hits(points: Seq<(i64, i64)>, w: int, h: int, sym: bool, j: int) -> bool {
    exists|k: int| 0 <= k < points.len() && point_hits(#[trigger] points[k], w, h, sym, j)
}

/// The buffer `cells`, `w` wide and `h` high, after every position that the
/// points touch is set to `state`.
pub open spec fn drawn(
    cells: Seq<bool>,
    points: Seq<(i64, i64)>,
    w: int,
    h: int,
    sym: bool,
    state: bool,
) -> Seq<bool> {
    Seq::new(
        cells.len(),
        |j: int|
            if stroke_hits(points, w, h, sym, j) {
                state
            } else {
                cells[j]
            },
    )
}

/// Sets the cell at `(x, y)` to `state` when its position lies in `cells`.
fn set_if_inside(cells: &mut Vec<bool>, x: i128, y: i128, w: u32, state: bool)
    requires
        -0x2_0000_0000_0000_0000 <= x <= 0x2_0000_0000_0000_0000,
        -0x2_0000_0000_0000_0000 <= y <= 0x2_0000_0000_0000_0000,
    ensures
        final(cells)@ == Seq::new(
            old(cells)@.len(),
            |j: int|
                if flat_index(x as int, y as int, w as int) == j {
                    state
                } else {
                    old(cells)@[j]
                },
        ),
{
    let wide = w as i128;
    let yy = y;
    assert(-0x2_0000_0000_0000_0000 * 0x1_0000_0000 <= yy * wide <= 0x2_0000_0000_0000_0000 * 0x1_0000_0000)
        by (nonlinear_arith)
        requires
            -0x2_0000_0000_0000_0000 <= yy <= 0x2_0000_0000_0000_0000,
            0 <= wide < 0x1_0000_0000,
    ;
    let index = yy * wide + x;
    if 0 <= index && index < cells.len() as i128 {
        cells.set(index as usize, state);
    }
    assert(cells@ =~= Seq::new(
        old(cells)@.len(),
        |j: int|
            if flat_index(x as int, y as int, w as int) == j {
                state
            } else {
                old(cells)@[j]
            },
    ));
}

/// Sets to `state` each cell that drawing the point `pos` touches, on a grid `w`
/// wide and `h` high stored in `cells`.
pub fn set_point(cells: &mut Vec<bool>, pos: (i64, i64), w: u32, h: u32, sym: bool, state: bool)
    ensures
        final(cells)@ == drawn(old(cells)@, seq![pos], w as int, h as int, sym, state),
{
    let ghost before = cells@;
    let x = pos.0 as i128;
    let y = pos.1 as i128;
    let rx = 2 * (w / 2) as i128 - x;
    let ry = 2 * (h / 2) as i128 - y;
    set_if_inside(cells, x, y, w, state);
    if sym {
        set_if_inside(cells, rx, y, w, state);
        set_if_inside(cells, x, ry, w, state);
        set_if_inside(cells, rx, ry, w, state);
    }
    assert forall|j: int| 0 <= j < before.len() implies #[trigger] cells@[j] == drawn(
        before,
        seq![pos],
        w as int,
        h as int,
        sym,
        state,
    )[j] by {
        let hit = stroke_hits(seq![pos], w as int, h as int, sym, j);
        assert(seq![pos][0] == pos);
        if point_hits(pos, w as int, h as int, sym, j) {
            let m = choose|m: int|
                0 <= m < mirror_count(sym) && flat_index(
                    #[trigger] mirrored(pos, m, w as int, h as int).0,
                    mirrored(pos, m, w as int, h as int).1,
                    w as int,
                ) == j;
            assert(hit);
        } else {
            assert(mirrored(pos, 0, w as int, h as int).0 == x);
            if sym {
                assert(mirrored(pos, 1, w as int, h as int).0 == rx);
                assert(mirrored(pos, 2, w as int, h as int).0 == x);
                assert(mirrored(pos, 3, w as int, h as int).0 == rx);
            }
            assert(!hit);
        }
    }
    assert(cells@ =~= drawn(before, seq![pos], w as int, h as int, sym, state));
}

/// Drawing one more point after `points` touches what drawing `points` touched,
/// and what the new point touches.
proof fn lemma_hits_push(points: Seq<(i64, i64)>, p: (i64, i64), w: int, h: int, sym: bool, j: int)
    ensures
        stroke_hits(points.push(p), w, h, sym, j) == (stroke_hits(points, w, h, sym, j)
            || point_hits(p, w, h, sym, j)),
{
    let longer = points.push(p);
    if stroke_hits(points, w, h, sym, j) {
        let k = choose|k: int| 0 <= k < points.len() && point_hits(#[trigger] points[k], w, h, sym, j);
        assert(longer[k] == points[k]);
    }
    if point_hits(p, w, h, sym, j) {
        assert(longer[points.len() as int] == p);
    }
    if stroke_hits(longer, w, h, sym, j) {
        let k = choose|k: int| 0 <= k < longer.len() && point_hits(#[trigger] longer[k], w, h, sym, j);
        if k < points.len() {
            assert(longer[k] == points[k]);
        }
    }
}

/// Sets to `state` each cell that drawing any of `points` touches, on a grid `w`
/// wide and `h` high stored in `cells`.
pub fn draw_points(
    cells: &mut Vec<bool>,
    points: &Vec<(i64, i64)>,
    w: u32,
    h: u32,
    sym: bool,
    state: bool,
)
    ensures
        final(cells)@ == drawn(old(cells)@, points@, w as int, h as int, sym, state),
{
    let ghost before = cells@;
    let mut k: usize = 0;
    while k < points.len()
        invariant
            k <= points@.len(),
            cells@ == drawn(before, points@.take(k as int), w as int, h as int, sym, state),
        decreases points@.len() - k,
    {
        let ghost mid = cells@;
        set_point(cells, points[k], w, h, sym, state);
        proof {
            let done = points@.take(k as int);
            assert(points@.take(k + 1) =~= done.push(points@[k as int]));
            assert forall|j: int| 0 <= j < before.len() implies #[trigger] cells@[j] == drawn(
                before,
                points@.take(k + 1),
                w as int,
                h as int,
                sym,
                state,
            )[j] by {
                lemma_hits_push(done, points@[k as int], w as int, h as int, sym, j);
                assert(seq![points@[k as int]][0] == points@[k as int]);
                if point_hits(points@[k as int], w as int, h as int, sym, j) {
                    assert(stroke_hits(seq![points@[k as int]], w as int, h as int, sym, j));
                } else {
                    assert(!stroke_hits(seq![points@[k as int]], w as int, h as int, sym, j));
                }
            }
            assert(cells@ =~= drawn(before, points@.take(k + 1), w as int, h as int, sym, state));
        }
        k = k + 1;
    }
    assert(points@.take(points@.len() as int) =~= points@);
}

/// Sets to `state` each cell that the line from `start` to `end` touches, on a
/// grid `w` wide and `h` high stored in `cells`.
pub fn draw_line(
    cells: &mut Vec<bool>,
    start: (i32, i32),
    end: (i32, i32),
    w: u32,
    h: u32,
    sym: bool,
    state: bool,
)
    ensures
        final(cells)@ == drawn(old(cells)@, line_points(start, end), w as int, h as int, sym, state),
        line_shape(start, end, line_points(start, end)),
{
    let points = trace(start, end);
    draw_points(cells, &points, w, h, sym, state);
}

} // verus!
