use vstd::prelude::*;
use rand::distributions::{Bernoulli, Distribution};
use rayon::iter::{IndexedParallelIterator, IntoParallelRefMutIterator, ParallelIterator};

verus! {

/// The pattern generators.
#[derive(Clone, Copy, Debug, PartialEq, Eq, Structural)]
pub enum Presets {
    Empty,
    Invert,
    Random,
    Grid,
    Cross,
    X,
}

/// Column shift of the diagonal cross, `(w - h) / 2` rounded toward zero; it is
/// negative on grids that are higher than wide.
pub open spec fn diagonal_offset(w: int, h: int) -> int {
    if w >= h {
        (w - h) / 2
    } else {
        -((h - w) / 2)
    }
}

/// Whether the pattern of `kind` marks the cell at `(x, y)` of a grid `w` cells
/// wide and `h` high. `Empty` marks no cell.
pub open spec fn pattern_cell(kind: Presets, x: int, y: int, w: int, h: int) -> bool {
    match kind {
        Presets::Grid => x % 3 != 0 && y % 3 != 0,
        Presets::Cross => x == w / 2 || y == h / 2,
        Presets::X => x - diagonal_offset(w, h) == y || x - diagonal_offset(w, h) == h - y,
        _ => false,
    }
}

/// Whether the generator of `kind` may leave `new` in the cell at `(x, y)` that
/// held `old`, with overlay `or`. Inversion flips the cell whatever the overlay;
/// a random draw keeps at least what the overlay keeps; every other pattern is
/// or-ed onto what the overlay keeps.
pub open spec fn cell_after(
    kind: Presets,
    old: bool,
    new: bool,
    x: int,
    y: int,
    w: int,
    h: int,
    or: bool,
) -> bool {
    match kind {
        Presets::Invert => new == !old,
        Presets::Random => (old && or) ==> new,
        _ => new == ((old && or) || pattern_cell(kind, x, y, w, h)),
    }
}

/// Whether `new` is a buffer that the generator of `kind` may make of `old`, for
/// a grid `w` cells wide and `h` high stored row after row.
pub open spec fn preset_result(
    kind: Presets,
    old: Seq<bool>,
    new: Seq<bool>,
    w: int,
    h: int,
    or: bool,
) -> bool {
    &&& new.len() == old.len()
    &&& forall|i: int|
        0 <= i < old.len() ==> cell_after(kind, old[i], #[trigger] new[i], i % w, i / w, w, h, or)
}

/// Relies on rayon's par_iter_mut, enumerate and for_each: `f` is called once on
/// each element with its index, and the element is replaced by what it returns.
#[verifier::external_body]
fn par_update<F>(buff: &mut Vec<bool>, f: F)
    where
        F: Fn(usize, bool) -> bool + Sync + Send,
    requires
        forall|i: usize, c: bool| f.requires((i, c)),
    ensures
        final(buff)@.len() == old(buff)@.len(),
        forall|i: int|
            0 <= i < old(buff)@.len() ==> f.ensures(
                (i as usize, old(buff)@[i]),
                #[trigger] final(buff)@[i],
            ),
{
    buff.par_iter_mut().enumerate().for_each(|(i, c)| *c = f(i, *c));
}

/// Relies on rand's Bernoulli::from_ratio(1, 6), which succeeds since 1 <= 6, and
/// on sampling it with thread_rng: a draw that is true with probability one in
/// six. Nothing is promised of a single draw.
#[verifier::external_body]
fn one_in_six() -> (r: bool) {
    Bernoulli::from_ratio(1, 6).unwrap().sample(&mut rand::thread_rng())
}

/// The value that the random generator leaves in a cell that held `c`, with
/// overlay `or`, when the cell's draw came out as `draw`.
pub fn random_cell(c: bool, or: bool, draw: bool) -> (r: bool)
    ensures
        r == ((c && or) || draw),
{
    (c && or) || draw
}

/// A pattern generator: fills or overlays a grid buffer stored row after row.
pub trait Preset {
    /// The generator's kind.
    spec fn kind(&self) -> Presets;

    /// Rewrites every cell of `buff`, a grid `w` cells wide and `h` high.
    fn make(&self, buff: &mut Vec<bool>, w: u32, h: u32, or: bool)
        requires
            w > 0,
        ensures
            preset_result(self.kind(), old(buff)@, final(buff)@, w as int, h as int, or),
    ;
}

/// Clears the grid, or keeps it as it is under overlay.
pub struct Empty;

/// Flips every cell.
pub struct Invert;

/// Brings each cell alive with probability one in six.
pub struct Random;

/// A lattice: the cells whose row and column are both off multiples of three.
pub struct Grid;

/// The middle row and the middle column.
pub struct Cross;

/// Two diagonals centred on the grid.
pub struct X;

impl Preset for Empty {
    open spec fn kind(&self) -> Presets {
        Presets::Empty
    }

    fn make(&self, buff: &mut Vec<bool>, w: u32, h: u32, or: bool) {
        let f = |i: usize, c: bool| -> (r: bool)
            ensures
                r == (c && or),
        {
            c && or
        };
        par_update(buff, f);
    }
}

impl Preset for Invert {
    open spec fn kind(&self) -> Presets {
        Presets::Invert
    }

    fn make(&self, buff: &mut Vec<bool>, w: u32, h: u32, or: bool) {
        let f = |i: usize, c: bool| -> (r: bool)
            ensures
                r == !c,
        {
            !c
        };
        par_update(buff, f);
    }
}

impl Preset for Random {
    open spec fn kind(&self) -> Presets {
        Presets::Random
    }

    fn make(&self, buff: &mut Vec<bool>, w: u32, h: u32, or: bool) {
        let f = |i: usize, c: bool| -> (r: bool)
            ensures
                (c && or) ==> r,
        {
            random_cell(c, or, one_in_six())
        };
        par_update(buff, f);
    }
}

/// The lattice's value at index `i` of a grid `w` cells wide.
fn grid_cell(i: usize, w: u32, h: u32) -> (r: bool)
    requires
        w > 0,
    ensures
        r == pattern_cell(Presets::Grid, (i as int) % (w as int), (i as int) / (w as int), w as int, h as int),
{
    let x = i % (w as usize);
    let y = i / (w as usize);
    x % 3 != 0 && y % 3 != 0
}

/// The cross's value at index `i` of a grid `w` cells wide and `h` high.
fn cross_cell(i: usize, w: u32, h: u32) -> (r: bool)
    requires
        w > 0,
    ensures
        r == pattern_cell(Presets::Cross, (i as int) % (w as int), (i as int) / (w as int), w as int, h as int),
{
    let x = i % (w as usize);
    let y = i / (w as usize);
    x == (w / 2) as usize || y == (h / 2) as usize
}

/// The diagonal cross's value at index `i` of a grid `w` cells wide and `h` high.
fn x_cell(i: usize, w: u32, h: u32) -> (r: bool)
    requires
        w > 0,
    ensures
        r == pattern_cell(Presets::X, (i as int) % (w as int), (i as int) / (w as int), w as int, h as int),
{
    let x = (i % (w as usize)) as i128;
    let y = (i / (w as usize)) as i128;
    let offset: i128 = if w >= h {
        ((w - h) / 2) as i128
    } else {
        -(((h - w) / 2) as i128)
    };
    x - offset == y || x - offset == h as i128 - y
}

impl Preset for Grid {
    open spec fn kind(&self) -> Presets {
        Presets::Grid
    }

    fn make(&self, buff: &mut Vec<bool>, w: u32, h: u32, or: bool) {
        let f = |i: usize, c: bool| -> (r: bool)
            requires
                w > 0,
            ensures
                r == ((c && or) || pattern_cell(
                    Presets::Grid,
                    (i as int) % (w as int),
                    (i as int) / (w as int),
                    w as int,
                    h as int,
                )),
        {
            (c && or) || grid_cell(i, w, h)
        };
        let ghost before = buff@;
        let n = buff.len();
        par_update(buff, f);
        assert forall|i: int| 0 <= i < n implies cell_after(
            Presets::Grid,
            before[i],
            #[trigger] buff@[i],
            i % (w as int),
            i / (w as int),
            w as int,
            h as int,
            or,
        ) by {
            assert(f.ensures((i as usize, before[i]), buff@[i]));
        }
    }
}

impl Preset for Cross {
    open spec fn kind(&self) -> Presets {
        Presets::Cross
    }

    fn make(&self, buff: &mut Vec<bool>, w: u32, h: u32, or: bool) {
        let f = |i: usize, c: bool| -> (r: bool)
            requires
                w > 0,
            ensures
                r == ((c && or) || pattern_cell(
                    Presets::Cross,
                    (i as int) % (w as int),
                    (i as int) / (w as int),
                    w as int,
                    h as int,
                )),
        {
            (c && or) || cross_cell(i, w, h)
        };
        let ghost before = buff@;
        let n = buff.len();
        par_update(buff, f);
        assert forall|i: int| 0 <= i < n implies cell_after(
            Presets::Cross,
            before[i],
            #[trigger] buff@[i],
            i % (w as int),
            i / (w as int),
            w as int,
            h as int,
            or,
        ) by {
            assert(f.ensures((i as usize, before[i]), buff@[i]));
        }
    }
}

impl Preset for X {
    open spec fn kind(&self) -> Presets {
        Presets::X
    }

    fn make(&self, buff: &mut Vec<bool>, w: u32, h: u32, or: bool) {
        let f = |i: usize, c: bool| -> (r: bool)
            requires
                w > 0,
            ensures
                r == ((c && or) || pattern_cell(
                    Presets::X,
                    (i as int) % (w as int),
                    (i as int) / (w as int),
                    w as int,
                    h as int,
                )),
        {
            (c && or) || x_cell(i, w, h)
        };
        let ghost before = buff@;
        let n = buff.len();
        par_update(buff, f);
        assert forall|i: int| 0 <= i < n implies cell_after(
            Presets::X,
            before[i],
            #[trigger] buff@[i],
            i % (w as int),
            i / (w as int),
            w as int,
            h as int,
            or,
        ) by {
            assert(f.ensures((i as usize, before[i]), buff@[i]));
        }
    }
}

/// The generator of `preset`, as a trait object. Verus takes no contract on a
/// function that returns one: `apply` states what each generator does.
pub fn get(preset: Presets) -> Box<dyn Preset> {
    match preset {
        Presets::Empty => Box::new(Empty),
        Presets::Invert => Box::new(Invert),
        Presets::Random => Box::new(Random),
        Presets::Grid => Box::new(Grid),
        Presets::Cross => Box::new(Cross),
        Presets::X => Box::new(X),
    }
}

/// Runs the generator of `preset` on `buff`, a grid `w` cells wide and `h` high.
pub fn apply(preset: Presets, buff: &mut Vec<bool>, w: u32, h: u32, or: bool)
    requires
        w > 0,
    ensures
        preset_result(preset, old(buff)@, final(buff)@, w as int, h as int, or),
{
    match preset {
        Presets::Empty => Empty.make(buff, w, h, or),
        Presets::Invert => Invert.make(buff, w, h, or),
        Presets::Random => Random.make(buff, w, h, or),
        Presets::Grid => Grid.make(buff, w, h, or),
        Presets::Cross => Cross.make(buff, w, h, or),
        Presets::X => X.make(buff, w, h, or),
    }
}

} // verus!
