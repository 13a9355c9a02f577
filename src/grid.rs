use vstd::prelude::*;
use vstd::arithmetic::div_mod::{
    lemma_fundamental_div_mod, lemma_fundamental_div_mod_converse, lemma_mod_bound,
};
use rayon::iter::{IndexedParallelIterator, IntoParallelIterator, ParallelIterator};
use crate::presets::{self, preset_result, Presets};
use crate::rules::{next_index, prev_index, rule_outcome, Rules, RULE_COUNT};
use crate::stroke::{self, drawn, line_points, line_shape};

verus! {

/// Why a grid cannot be made.
#[derive(Clone, Copy, Debug, PartialEq, Eq, Structural)]
pub enum GridError {
    /// The width or the height is zero.
    EmptyDimension,
}

/// 1 when the cell at `(x, y)` of a row-major buffer `w` wide is alive, else 0.
pub open spec fn alive_at(cells: Seq<bool>, w: int, x: int, y: int) -> int {
    if cells[y * w + x] {
        1
    } else {
        0
    }
}

/// Live cells among the eight neighbours of `(x, y)` on the torus `w` wide and
/// `h` high: each coordinate steps by one either way and wraps around its edge.
pub open spec fn live_neighbors(cells: Seq<bool>, w: int, h: int, x: int, y: int) -> int {
    alive_at(cells, w, (x - 1) % w, (y - 1) % h) + alive_at(cells, w, x, (y - 1) % h) + alive_at(
        cells,
        w,
        (x + 1) % w,
        (y - 1) % h,
    ) + alive_at(cells, w, (x - 1) % w, y) + alive_at(cells, w, (x + 1) % w, y) + alive_at(
        cells,
        w,
        (x - 1) % w,
        (y + 1) % h,
    ) + alive_at(cells, w, x, (y + 1) % h) + alive_at(cells, w, (x + 1) % w, (y + 1) % h)
}

/// Next state of the cell at position `i` of `cells`, a torus `w` wide and `h`
/// high, under the rule at `rule` of the catalog.
pub open spec fn next_cell(cells: Seq<bool>, w: int, h: int, rule: int, i: int) -> bool {
    rule_outcome(rule, cells[i], live_neighbors(cells, w, h, i % w, i / w))
}

/// The generation that follows `cells`, a torus `w` wide and `h` high, under the
/// rule at `rule` of the catalog.
pub open spec fn next_cells(cells: Seq<bool>, w: int, h: int, rule: int) -> Seq<bool> {
    Seq::new(cells.len(), |i: int| next_cell(cells, w, h, rule, i))
}

/// The image of `cells` with `dims` channels per cell, cells in buffer order (the
/// top row first, each row from left to right): every channel of a dead cell is
/// 255, every channel of a live one is 0.
pub open spec fn render_bytes(cells: Seq<bool>, dims: int) -> Seq<u8> {
    Seq::new(
        (cells.len() * dims) as nat,
        |k: int|
            if cells[k / dims] {
                0u8
            } else {
                255u8
            },
    )
}

/// The cells that an image of `dims` channels per cell shows: a cell is alive
/// where the first channel of its pixel is 0.
pub open spec fn decode_pixels(bytes: Seq<u8>, dims: int) -> Seq<bool> {
    Seq::new((bytes.len() as int / dims) as nat, |i: int| bytes[i * dims] == 0)
}

/// Relies on rayon's into_par_iter on `0..n`, map and collect_into_vec: `out` is
/// cleared and then holds `f(i)` at each position `i` below `n`.
#[verifier::external_body]
fn par_collect_into<T, F>(n: usize, f: F, out: &mut Vec<T>)
    where
        T: Send,
        F: Fn(usize) -> T + Sync + Send,
    requires
        forall|i: usize| i < n ==> f.requires((i,)),
    ensures
        final(out)@.len() == n,
        forall|i: int| 0 <= i < n ==> f.ensures((i as usize,), #[trigger] final(out)@[i]),
{
    (0..n).into_par_iter().map(f).collect_into_vec(out);
}

/// Stepping by one either way from `x` on a cycle of length `n`.
proof fn lemma_wrap(x: int, n: int)
    requires
        0 <= x < n,
    ensures
        (x - 1) % n == if x == 0 {
            n - 1
        } else {
            x - 1
        },
        (x + 1) % n == if x + 1 == n {
            0
        } else {
            x + 1
        },
        x % n == x,
{
    if x == 0 {
        lemma_fundamental_div_mod_converse(x - 1, n, -1, n - 1);
    } else {
        lemma_fundamental_div_mod_converse(x - 1, n, 0, x - 1);
    }
    if x + 1 == n {
        lemma_fundamental_div_mod_converse(x + 1, n, 1, 0);
    } else {
        lemma_fundamental_div_mod_converse(x + 1, n, 0, x + 1);
    }
    lemma_fundamental_div_mod_converse(x, n, 0, x);
}

/// Column and row of position `i` in a buffer `w` wide and `h` high.
proof fn lemma_coordinates(i: int, w: int, h: int)
    requires
        0 < w,
        0 < h,
        0 <= i < w * h,
    ensures
        0 <= i % w < w,
        0 <= i / w < h,
{
    lemma_fundamental_div_mod(i, w);
    lemma_mod_bound(i, w);
    let q = i / w;
    let r = i % w;
    assert(0 <= q < h) by (nonlinear_arith)
        requires
            i == w * q + r,
            0 <= r < w,
            0 <= i < w * h,
            0 < w,
    ;
}

/// Position of the cell at `(x, y)` in a row-major buffer `w` wide and `h` high.
fn index(x: u32, y: u32, w: u32, h: u32) -> (r: usize)
    requires
        x < w,
        y < h,
        w * h <= usize::MAX,
    ensures
        r == y * w + x,
        r < w * h,
{
    assert(y * w + x < w * h) by (nonlinear_arith)
        requires
            x < w,
            y < h,
    ;
    y as usize * w as usize + x as usize
}

/// 1 when the cell at `(x, y)` is alive, else 0.
fn alive(cells: &Vec<bool>, x: u32, y: u32, w: u32, h: u32) -> (r: usize)
    requires
        x < w,
        y < h,
        cells@.len() == w * h,
        w * h <= usize::MAX,
    ensures
        r == alive_at(cells@, w as int, x as int, y as int),
        r <= 1,
{
    if cells[index(x, y, w, h)] {
        1
    } else {
        0
    }
}

/// Live cells among the eight wrapped neighbours of `(x, y)`.
fn count(cells: &Vec<bool>, x: u32, y: u32, w: u32, h: u32) -> (r: usize)
    requires
        x < w,
        y < h,
        cells@.len() == w * h,
        w * h <= usize::MAX,
    ensures
        r == live_neighbors(cells@, w as int, h as int, x as int, y as int),
        r <= 8,
{
    let xn = if x == 0 {
        w - 1
    } else {
        x - 1
    };
    let xp = if x + 1 == w {
        0
    } else {
        x + 1
    };
    let yn = if y == 0 {
        h - 1
    } else {
        y - 1
    };
    let yp = if y + 1 == h {
        0
    } else {
        y + 1
    };
    proof {
        lemma_wrap(x as int, w as int);
        lemma_wrap(y as int, h as int);
    }
    let n = alive(cells, xn, yn, w, h) + alive(cells, x, yn, w, h) + alive(cells, xp, yn, w, h)
        + alive(cells, xn, y, w, h) + alive(cells, xp, y, w, h) + alive(cells, xn, yp, w, h)
        + alive(cells, x, yp, w, h) + alive(cells, xp, yp, w, h);
    n
}

/// Next state of the cell at position `i` of `cells` under `rules`.
fn next_state(cells: &Vec<bool>, w: u32, h: u32, rules: &Rules, i: usize) -> (r: bool)
    requires
        0 < w,
        0 < h,
        i < cells@.len(),
        cells@.len() == w * h,
        w * h <= usize::MAX,
    ensures
        r == next_cell(cells@, w as int, h as int, rules@ as int, i as int),
{
    proof {
        lemma_coordinates(i as int, w as int, h as int);
    }
    let x = (i % w as usize) as u32;
    let y = (i / w as usize) as u32;
    let n = count(cells, x, y, w, h);
    rules.eval(cells[i], n)
}

/// One channel of the pixel at byte `k` of the image of `cells`.
fn pixel(cells: &Vec<bool>, dims: usize, k: usize) -> (r: u8)
    requires
        k < cells@.len() * dims,
    ensures
        r == (if cells@[(k as int) / (dims as int)] {
            0u8
        } else {
            255u8
        }),
{
    assert(0 < dims && k / dims < cells@.len()) by (nonlinear_arith)
        requires
            k < cells@.len() * dims,
            0 <= k,
    {
        if dims > 0 {
            lemma_fundamental_div_mod(k as int, dims as int);
            lemma_mod_bound(k as int, dims as int);
        }
    }
    if cells[k / dims] {
        0
    } else {
        255
    }
}

/// A toroidal grid of cells with two buffers: the active one, which is read and
/// shown, and a scratch one, which the next generation is written into before
/// the two swap roles.
pub struct Grid {
    overlay: bool,
    rules: Rules,
    cell_ref: bool,
    cells_a: Vec<bool>,
    cells_b: Vec<bool>,
    height: u32,
    width: u32,
}

impl View for Grid {
    type V = Seq<bool>;

    /// The active buffer, row after row from the top.
    closed spec fn view(&self) -> Seq<bool> {
        if self.cell_ref {
            self.cells_b@
        } else {
            self.cells_a@
        }
    }
}

impl Grid {
    /// Width in cells.
    pub closed spec fn cols(&self) -> int {
        self.width as int
    }

    /// Height in cells.
    pub closed spec fn rows(&self) -> int {
        self.height as int
    }

    /// Whether patterns are or-ed onto the live cells instead of replacing them.
    pub closed spec fn overlay_on(&self) -> bool {
        self.overlay
    }

    /// Catalog position of the active rule.
    pub closed spec fn rule_index(&self) -> int {
        self.rules@ as int
    }

    /// Both buffers hold one cell for each position of a non-empty grid.
    pub closed spec fn wf(&self) -> bool {
        &&& 0 < self.width
        &&& 0 < self.height
        &&& self.width * self.height <= usize::MAX
        &&& self.cells_a@.len() == self.width * self.height
        &&& self.cells_b@.len() == self.width * self.height
    }

    /// A grid `width` cells wide and `height` high with every cell dead, the
    /// first rule of the catalog and overlay off; an error when a dimension is
    /// zero.
    pub fn new(width: u32, height: u32) -> (r: Result<Grid, GridError>)
        requires
            width * height <= usize::MAX,
        ensures
            width == 0 || height == 0 ==> r == Err::<Grid, GridError>(GridError::EmptyDimension),
            width > 0 && height > 0 ==> r is Ok,
            r matches Ok(g) ==> {
                &&& g.wf()
                &&& g.cols() == width
                &&& g.rows() == height
                &&& g@ == Seq::new((width * height) as nat, |i: int| false)
                &&& !g.overlay_on()
                &&& g.rule_index() == 0
            },
    {
        if width == 0 || height == 0 {
            return Err(GridError::EmptyDimension);
        }
        let size = width as usize * height as usize;
        let cells = vec![false; size];
        let grid = Grid {
            overlay: false,
            rules: Rules::default(),
            cell_ref: false,
            cells_a: cells.clone(),
            cells_b: cells,
            height,
            width,
        };
        assert(grid@ =~= Seq::new((width * height) as nat, |i: int| false));
        Ok(grid)
    }

    /// Width in cells.
    pub fn width(&self) -> (r: u32)
        ensures
            r == self.cols(),
            self.wf() ==> r > 0,
    {
        self.width
    }

    /// Height in cells.
    pub fn height(&self) -> (r: u32)
        ensures
            r == self.rows(),
            self.wf() ==> r > 0,
    {
        self.height
    }

    /// Whether patterns are or-ed onto the live cells instead of replacing them.
    pub fn overlay(&self) -> (r: bool)
        ensures
            r == self.overlay_on(),
    {
        self.overlay
    }

    /// Switches the overlay on when it is off, and off when it is on.
    pub fn toggle_overlay(&mut self)
        requires
            old(self).wf(),
        ensures
            final(self).wf(),
            final(self)@ == old(self)@,
            final(self).cols() == old(self).cols(),
            final(self).rows() == old(self).rows(),
            final(self).overlay_on() == !old(self).overlay_on(),
            final(self).rule_index() == old(self).rule_index(),
    {
        self.overlay = !self.overlay;
    }

    /// The active rule.
    pub fn rules(&self) -> (r: &Rules)
        ensures
            r@ == self.rule_index(),
    {
        &self.rules
    }

    /// Moves to the next rule of the catalog, from the last back to the first.
    pub fn next_rule(&mut self)
        requires
            old(self).wf(),
        ensures
            final(self).wf(),
            final(self)@ == old(self)@,
            final(self).cols() == old(self).cols(),
            final(self).rows() == old(self).rows(),
            final(self).overlay_on() == old(self).overlay_on(),
            final(self).rule_index() == next_index(old(self).rule_index()),
    {
        self.rules.next_rule();
    }

    /// Moves to the previous rule of the catalog, from the first to the last.
    pub fn prev_rule(&mut self)
        requires
            old(self).wf(),
        ensures
            final(self).wf(),
            final(self)@ == old(self)@,
            final(self).cols() == old(self).cols(),
            final(self).rows() == old(self).rows(),
            final(self).overlay_on() == old(self).overlay_on(),
            final(self).rule_index() == prev_index(old(self).rule_index()),
    {
        self.rules.prev_rule();
    }

    /// Moves to a rule of the catalog drawn at random.
    pub fn random_rule(&mut self)
        requires
            old(self).wf(),
        ensures
            final(self).wf(),
            final(self)@ == old(self)@,
            final(self).cols() == old(self).cols(),
            final(self).rows() == old(self).rows(),
            final(self).overlay_on() == old(self).overlay_on(),
            0 <= final(self).rule_index() < RULE_COUNT,
    {
        self.rules.random_rule();
    }

    /// Moves back to the first rule of the catalog.
    pub fn reset_rules(&mut self)
        requires
            old(self).wf(),
        ensures
            final(self).wf(),
            final(self)@ == old(self)@,
            final(self).cols() == old(self).cols(),
            final(self).rows() == old(self).rows(),
            final(self).overlay_on() == old(self).overlay_on(),
            final(self).rule_index() == 0,
    {
        self.rules.reset_rules();
    }

    /// The active buffer, row after row from the top.
    pub fn cells(&self) -> (r: &Vec<bool>)
        requires
            self.wf(),
        ensures
            r@ == self@,
            r@.len() == self.cols() * self.rows(),
    {
        if self.cell_ref {
            &self.cells_b
        } else {
            &self.cells_a
        }
    }

    /// Runs the generator of `preset` on the active buffer, with the grid's
    /// overlay setting.
    pub fn preset(&mut self, preset: Presets)
        requires
            old(self).wf(),
        ensures
            final(self).wf(),
            final(self).cols() == old(self).cols(),
            final(self).rows() == old(self).rows(),
            final(self).overlay_on() == old(self).overlay_on(),
            final(self).rule_index() == old(self).rule_index(),
            preset_result(
                preset,
                old(self)@,
                final(self)@,
                old(self).cols(),
                old(self).rows(),
                old(self).overlay_on(),
            ),
    {
        if self.cell_ref {
            presets::apply(preset, &mut self.cells_b, self.width, self.height, self.overlay);
        } else {
            presets::apply(preset, &mut self.cells_a, self.width, self.height, self.overlay);
        }
    }

    /// Sets to `state` the cells that drawing the point `pos` touches: the point
    /// itself, and with `sym` its mirror images about the grid's centre.
    /// Positions that fall outside the buffer are left out.
    pub fn set_state(&mut self, pos: (i32, i32), state: bool, sym: bool)
        requires
            old(self).wf(),
        ensures
            final(self).wf(),
            final(self).cols() == old(self).cols(),
            final(self).rows() == old(self).rows(),
            final(self).overlay_on() == old(self).overlay_on(),
            final(self).rule_index() == old(self).rule_index(),
            final(self)@ == drawn(
                old(self)@,
                seq![stroke::widen(pos)],
                old(self).cols(),
                old(self).rows(),
                sym,
                state,
            ),
    {
        if self.cell_ref {
            stroke::set_point(&mut self.cells_b, (pos.0 as i64, pos.1 as i64), self.width, self.height, sym, state);
        } else {
            stroke::set_point(&mut self.cells_a, (pos.0 as i64, pos.1 as i64), self.width, self.height, sym, state);
        }
    }

    /// Sets to `state` the cells that drawing each of `points` touches.
    pub fn draw_points(&mut self, points: &Vec<(i64, i64)>, state: bool, sym: bool)
        requires
            old(self).wf(),
        ensures
            final(self).wf(),
            final(self).cols() == old(self).cols(),
            final(self).rows() == old(self).rows(),
            final(self).overlay_on() == old(self).overlay_on(),
            final(self).rule_index() == old(self).rule_index(),
            final(self)@ == drawn(
                old(self)@,
                points@,
                old(self).cols(),
                old(self).rows(),
                sym,
                state,
            ),
    {
        if self.cell_ref {
            stroke::draw_points(&mut self.cells_b, points, self.width, self.height, sym, state);
        } else {
            stroke::draw_points(&mut self.cells_a, points, self.width, self.height, sym, state);
        }
    }

    /// Sets to `state` the cells that the straight line from `start` to `end`
    /// touches, each point of it mirrored when `sym` is set.
    pub fn draw_line(&mut self, start: (i32, i32), end: (i32, i32), state: bool, sym: bool)
        requires
            old(self).wf(),
        ensures
            final(self).wf(),
            final(self).cols() == old(self).cols(),
            final(self).rows() == old(self).rows(),
            final(self).overlay_on() == old(self).overlay_on(),
            final(self).rule_index() == old(self).rule_index(),
            final(self)@ == drawn(
                old(self)@,
                line_points(start, end),
                old(self).cols(),
                old(self).rows(),
                sym,
                state,
            ),
            line_shape(start, end, line_points(start, end)),
    {
        if self.cell_ref {
            stroke::draw_line(&mut self.cells_b, start, end, self.width, self.height, sym, state);
        } else {
            stroke::draw_line(&mut self.cells_a, start, end, self.width, self.height, sym, state);
        }
    }

    /// Advances one generation: the scratch buffer receives the next state of
    /// every cell of the active one, and the two swap roles.
    pub fn step(&mut self)
        requires
            old(self).wf(),
        ensures
            final(self).wf(),
            final(self).cols() == old(self).cols(),
            final(self).rows() == old(self).rows(),
            final(self).overlay_on() == old(self).overlay_on(),
            final(self).rule_index() == old(self).rule_index(),
            final(self)@ == next_cells(
                old(self)@,
                old(self).cols(),
                old(self).rows(),
                old(self).rule_index(),
            ),
    {
        let w = self.width;
        let h = self.height;
        let n = self.cells_a.len();
        let ghost before = self@;
        if self.cell_ref {
            let current = &self.cells_b;
            let rules = &self.rules;
            let f = |i: usize| -> (r: bool)
                requires
                    i < n,
                    n == current@.len(),
                    0 < w,
                    0 < h,
                    current@.len() == w * h,
                    w * h <= usize::MAX,
                ensures
                    r == next_cell(current@, w as int, h as int, rules@ as int, i as int),
            {
                next_state(current, w, h, rules, i)
            };
            par_collect_into(n, f, &mut self.cells_a);
        } else {
            let current = &self.cells_a;
            let rules = &self.rules;
            let f = |i: usize| -> (r: bool)
                requires
                    i < n,
                    n == current@.len(),
                    0 < w,
                    0 < h,
                    current@.len() == w * h,
                    w * h <= usize::MAX,
                ensures
                    r == next_cell(current@, w as int, h as int, rules@ as int, i as int),
            {
                next_state(current, w, h, rules, i)
            };
            par_collect_into(n, f, &mut self.cells_b);
        }
        self.cell_ref = !self.cell_ref;
        assert(self@ =~= next_cells(before, w as int, h as int, self.rule_index()));
    }

    /// The image of the active buffer with `dims` channels per cell, the top
    /// row first: every channel is 255 for a dead cell and 0 for a live one.
    pub fn render(&self, dims: usize) -> (r: Vec<u8>)
        requires
            self.wf(),
            self@.len() * dims <= usize::MAX,
        ensures
            r@ == render_bytes(self@, dims as int),
    {
        let cells = self.cells();
        let size = cells.len() * dims;
        let mut buf: Vec<u8> = Vec::with_capacity(size);
        let f = |k: usize| -> (r: u8)
            requires
                k < size,
                size == cells@.len() * dims,
            ensures
                r == (if cells@[(k as int) / (dims as int)] {
                    0u8
                } else {
                    255u8
                }),
        {
            pixel(cells, dims, k)
        };
        par_collect_into(size, f, &mut buf);
        assert(buf@ =~= render_bytes(self@, dims as int));
        buf
    }
}

/// On the torus every cell counts each of its eight neighbours, found by
/// stepping one cell either way along each axis and wrapping around the edges:
/// a live cell just across an edge or a corner is counted.
pub proof fn lemma_wrapped_neighbor_counted(
    cells: Seq<bool>,
    w: int,
    h: int,
    x: int,
    y: int,
    dx: int,
    dy: int,
)
    requires
        0 < w,
        0 < h,
        cells.len() == w * h,
        0 <= x < w,
        0 <= y < h,
        -1 <= dx <= 1,
        -1 <= dy <= 1,
        dx != 0 || dy != 0,
        cells[((y + dy) % h) * w + (x + dx) % w],
    ensures
        live_neighbors(cells, w, h, x, y) >= 1,
{
    lemma_wrap(x, w);
    lemma_wrap(y, h);
    assert(alive_at(cells, w, (x + dx) % w, (y + dy) % h) == 1);
}

/// The scratch buffer after the next state of each position listed in `order`
/// is written into it, one after the other.
pub open spec fn write_in_order(
    scratch: Seq<bool>,
    cells: Seq<bool>,
    w: int,
    h: int,
    rule: int,
    order: Seq<int>,
) -> Seq<bool>
    decreases order.len(),
{
    if order.len() == 0 {
        scratch
    } else {
        write_in_order(scratch, cells, w, h, rule, order.drop_last()).update(
            order.last(),
            next_cell(cells, w, h, rule, order.last()),
        )
    }
}

proof fn lemma_write_in_order(
    scratch: Seq<bool>,
    cells: Seq<bool>,
    w: int,
    h: int,
    rule: int,
    order: Seq<int>,
)
    requires
        scratch.len() == cells.len(),
        forall|k: int| 0 <= k < order.len() ==> 0 <= #[trigger] order[k] < cells.len(),
    ensures
        write_in_order(scratch, cells, w, h, rule, order).len() == cells.len(),
        forall|j: int|
            0 <= j < cells.len() ==> #[trigger] write_in_order(scratch, cells, w, h, rule, order)[j]
                == if order.contains(j) {
                next_cell(cells, w, h, rule, j)
            } else {
                scratch[j]
            },
    decreases order.len(),
{
    if order.len() > 0 {
        let rest = order.drop_last();
        assert forall|k: int| 0 <= k < rest.len() implies 0 <= #[trigger] rest[k] < cells.len() by {
            assert(rest[k] == order[k]);
        }
        lemma_write_in_order(scratch, cells, w, h, rule, rest);
        assert(0 <= order[order.len() - 1] < cells.len());
        assert forall|j: int| 0 <= j < cells.len() implies order.contains(j) == (rest.contains(j)
            || order.last() == j) by {
            if order.contains(j) {
                let k = choose|k: int| 0 <= k < order.len() && order[k] == j;
                if k < order.len() - 1 {
                    assert(rest[k] == j);
                }
            }
            if rest.contains(j) {
                let k = choose|k: int| 0 <= k < rest.len() && rest[k] == j;
                assert(order[k] == j);
            }
        }
    }
}

/// Every cell of the next generation is computed from the current generation
/// alone and never from another cell of the next one: writing the cells into
/// the scratch buffer in any order, some of them more than once, over whatever
/// the scratch buffer held, gives the same generation as long as every
/// position is written.
pub proof fn lemma_step_order_free(
    scratch: Seq<bool>,
    cells: Seq<bool>,
    w: int,
    h: int,
    rule: int,
    order: Seq<int>,
)
    requires
        scratch.len() == cells.len(),
        forall|k: int| 0 <= k < order.len() ==> 0 <= #[trigger] order[k] < cells.len(),
        forall|i: int| 0 <= i < cells.len() ==> order.contains(i),
    ensures
        write_in_order(scratch, cells, w, h, rule, order) == next_cells(cells, w, h, rule),
{
    lemma_write_in_order(scratch, cells, w, h, rule, order);
    assert(write_in_order(scratch, cells, w, h, rule, order) =~= next_cells(cells, w, h, rule));
}

/// Reading back the first channel of each pixel of a rendered image, 0 for a
/// live cell, gives the buffer that was rendered, for any positive number of
/// channels.
pub proof fn lemma_render_round_trip(cells: Seq<bool>, dims: int)
    requires
        0 < dims,
    ensures
        decode_pixels(render_bytes(cells, dims), dims) == cells,
{
    let bytes = render_bytes(cells, dims);
    let n = cells.len() as int;
    assert(n * dims >= 0) by (nonlinear_arith)
        requires
            n >= 0,
            dims > 0,
    ;
    lemma_fundamental_div_mod_converse(n * dims, dims, n, 0);
    assert forall|i: int| 0 <= i < n implies #[trigger] decode_pixels(bytes, dims)[i] == cells[i] by {
        assert(0 <= i * dims < n * dims) by (nonlinear_arith)
            requires
                0 <= i < n,
                dims > 0,
        ;
        lemma_fundamental_div_mod_converse(i * dims, dims, i, 0);
    }
    assert(decode_pixels(bytes, dims) =~= cells);
}

} // verus!
