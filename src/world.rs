use vstd::prelude::*;
use vstd::arithmetic::div_mod::{lemma_div_nonincreasing, lemma_div_pos_is_pos};
use crate::config::Args;
use crate::grid::{next_cells, Grid, GridError};
use crate::presets::{preset_result, Presets};
use crate::rules::{next_index, prev_index, rule_name, RULE_COUNT};
use crate::stroke::{drawn, line_points, line_shape};

verus! {

/// Number of speed settings.
pub const SPEED_COUNT: usize = 12;

/// Title word while the simulation advances on its own.
pub const RUNNING: &'static str = "Running";

/// Title word while the simulation waits.
pub const PAUSED: &'static str = "Paused";

/// Ticks per generation at speed setting `i`.
pub open spec fn speed_divisor(i: int) -> int {
    seq![1int, 2, 3, 5, 8, 13, 21, 34, 55, 89, 144, 233][i]
}

/// The speed setting reached from `speed` by `inc`, kept within the settings.
pub open spec fn clamped_speed(speed: int, inc: int) -> int {
    if speed + inc < 0 {
        0
    } else if speed + inc >= SPEED_COUNT {
        SPEED_COUNT - 1
    } else {
        speed + inc
    }
}

/// `a / b` rounded toward zero.
pub open spec fn trunc_div(a: int, b: int) -> int {
    if a >= 0 {
        a / b
    } else {
        -((-a) / b)
    }
}

/// The grid cell under the window point `p`, whose origin is the window's
/// centre with y growing upward: `offset` is half the window's size in pixels
/// and `scale` the side of a cell in pixels; cell rows grow downward.
pub open spec fn cell_of(p: (i32, i32), offset: (i32, i32), scale: int) -> (int, int) {
    (trunc_div(p.0 + offset.0, scale), trunc_div(offset.1 - p.1, scale))
}

/// Whether the cell coordinates `c` fit the grid's 32-bit stroke coordinates.
pub open spec fn traceable(c: (int, int)) -> bool {
    i32::MIN <= c.0 <= i32::MAX && i32::MIN <= c.1 <= i32::MAX
}

/// The cell coordinates `c` as a point of the line tracer.
pub open spec fn as_point(c: (int, int)) -> (i32, i32) {
    (c.0 as i32, c.1 as i32)
}

/// Keys that the simulation responds to; every other key is `Other`.
#[derive(Clone, Copy, Debug, PartialEq, Eq, Structural)]
pub enum Key {
    C,
    G,
    I,
    O,
    R,
    S,
    X,
    Back,
    Comma,
    Down,
    Left,
    Return,
    Right,
    Period,
    Slash,
    Space,
    Up,
    Other,
}

/// Mouse buttons; only the left one draws.
#[derive(Clone, Copy, Debug, PartialEq, Eq, Structural)]
pub enum MouseButton {
    Left,
    Other,
}

/// An input event. Points are window points: the origin at the window's
/// centre, y growing upward.
#[derive(Clone, Copy, Debug, PartialEq, Eq, Structural)]
pub enum Event {
    /// A key went down, with a shift key held or not.
    KeyPressed { key: Key, shift: bool },
    /// The pointer moved to `(x, y)`, with the left shift key held or not.
    MouseMoved { x: i32, y: i32, lshift: bool },
    /// A button went down with the pointer at `(x, y)`.
    MousePressed { button: MouseButton, x: i32, y: i32 },
    /// A button went up.
    MouseReleased { button: MouseButton },
    /// Anything else.
    Other,
}

/// What the host is asked to do after an event.
#[derive(Clone, Copy, Debug, PartialEq, Eq, Structural)]
pub enum Action {
    Nothing,
    /// Save a picture of the grid.
    Snapshot,
}

/// Ticks per generation at speed setting `i`.
fn divisor(i: usize) -> (r: u64)
    requires
        i < SPEED_COUNT,
    ensures
        r == speed_divisor(i as int),
        r > 0,
{
    let table: [u64; 12] = [1, 2, 3, 5, 8, 13, 21, 34, 55, 89, 144, 233];
    table[i]
}

/// `a / b` rounded toward zero.
fn div_toward_zero(a: i64, b: u32) -> (r: i64)
    requires
        b > 0,
        -0x1_0000_0000 <= a <= 0x1_0000_0000,
    ensures
        r == trunc_div(a as int, b as int),
        -0x1_0000_0000 <= r <= 0x1_0000_0000,
{
    if a >= 0 {
        proof {
            lemma_div_nonincreasing(a as int, b as int);
            lemma_div_pos_is_pos(a as int, b as int);
        }
        (a as u64 / b as u64) as i64
    } else {
        proof {
            lemma_div_nonincreasing(-a, b as int);
            lemma_div_pos_is_pos(-a, b as int);
        }
        -(((-a) as u64 / b as u64) as i64)
    }
}

/// `new` is `old` with only its grid changed, if at all.
pub open spec fn only_grid_changed(old: &Model, new: &Model) -> bool {
    &&& new.wf()
    &&& new.same_frame(old)
    &&& new.pointer() == old.pointer()
    &&& new.speed_setting() == old.speed_setting()
    &&& new.is_stepping() == old.is_stepping()
    &&& new.tick_count() == old.tick_count()
    &&& new.grid_model().cols() == old.grid_model().cols()
    &&& new.grid_model().rows() == old.grid_model().rows()
}

/// `new` is `old` after the generator of `p` ran on its grid.
pub open spec fn preset_applied(old: &Model, new: &Model, p: Presets) -> bool {
    &&& only_grid_changed(old, new)
    &&& new.grid_model().overlay_on() == old.grid_model().overlay_on()
    &&& new.grid_model().rule_index() == old.grid_model().rule_index()
    &&& preset_result(
        p,
        old.grid_model()@,
        new.grid_model()@,
        old.grid_model().cols(),
        old.grid_model().rows(),
        old.grid_model().overlay_on(),
    )
}

/// `new` is `old` with its grid's cells and overlay kept; the rule may change.
pub open spec fn cells_kept(old: &Model, new: &Model) -> bool {
    &&& only_grid_changed(old, new)
    &&& new.grid_model()@ == old.grid_model()@
    &&& new.grid_model().overlay_on() == old.grid_model().overlay_on()
}

/// `new` is `old` with every setting kept but the speed, which is `speed`.
pub open spec fn speed_changed(old: &Model, new: &Model, speed: int) -> bool {
    &&& new.wf()
    &&& new.same_frame(old)
    &&& new.grid_model() == old.grid_model()
    &&& new.pointer() == old.pointer()
    &&& new.is_stepping() == old.is_stepping()
    &&& new.tick_count() == old.tick_count()
    &&& new.speed_setting() == speed
}

/// What a key press does to the model `old`, making `new`, and what it asks
/// of the host.
pub open spec fn key_handled(old: &Model, new: &Model, key: Key, shift: bool, action: Action) -> bool {
    &&& action == if key == Key::S {
        Action::Snapshot
    } else {
        Action::Nothing
    }
    &&& match key {
        Key::C => preset_applied(old, new, Presets::Cross),
        Key::G => preset_applied(old, new, Presets::Grid),
        Key::I => preset_applied(old, new, Presets::Invert),
        Key::R => preset_applied(old, new, Presets::Random),
        Key::X => preset_applied(old, new, Presets::X),
        Key::Back => preset_applied(old, new, Presets::Empty),
        Key::O => {
            &&& only_grid_changed(old, new)
            &&& new.grid_model()@ == old.grid_model()@
            &&& new.grid_model().rule_index() == old.grid_model().rule_index()
            &&& new.grid_model().overlay_on() == !old.grid_model().overlay_on()
        },
        Key::Comma => cells_kept(old, new) && new.grid_model().rule_index() == prev_index(
            old.grid_model().rule_index(),
        ),
        Key::Period => cells_kept(old, new) && new.grid_model().rule_index() == next_index(
            old.grid_model().rule_index(),
        ),
        Key::Slash => cells_kept(old, new) && if shift {
            0 <= new.grid_model().rule_index() < RULE_COUNT
        } else {
            new.grid_model().rule_index() == 0
        },
        Key::Down => speed_changed(old, new, clamped_speed(old.speed_setting(), 1)),
        Key::Up => speed_changed(old, new, clamped_speed(old.speed_setting(), -1)),
        Key::Left => speed_changed(old, new, 0),
        Key::Right => speed_changed(old, new, SPEED_COUNT - 1),
        Key::Return => {
            &&& new.wf()
            &&& new.same_frame(old)
            &&& new.pointer() == old.pointer()
            &&& new.speed_setting() == old.speed_setting()
            &&& new.tick_count() == old.tick_count()
            &&& !new.is_stepping()
            &&& new.grid_model().cols() == old.grid_model().cols()
            &&& new.grid_model().rows() == old.grid_model().rows()
            &&& new.grid_model().overlay_on() == old.grid_model().overlay_on()
            &&& new.grid_model().rule_index() == old.grid_model().rule_index()
            &&& new.grid_model()@ == next_cells(
                old.grid_model()@,
                old.grid_model().cols(),
                old.grid_model().rows(),
                old.grid_model().rule_index(),
            )
        },
        Key::Space => {
            &&& new.wf()
            &&& new.same_frame(old)
            &&& new.grid_model() == old.grid_model()
            &&& new.pointer() == old.pointer()
            &&& new.speed_setting() == old.speed_setting()
            &&& new.tick_count() == old.tick_count()
            &&& new.is_stepping() == !old.is_stepping()
        },
        _ => *new == *old,
    }
}

/// The simulation as the window drives it: the grid, the pointer, the speed
/// setting and whether it advances on its own.
pub struct Model {
    debug: bool,
    dims: (u32, u32),
    grid: Grid,
    mouse_pos: Option<(i32, i32)>,
    offset: (i32, i32),
    scale: u32,
    speed: usize,
    stepping: bool,
    ticks: u64,
}

impl Model {
    /// The grid.
    pub closed spec fn grid_model(&self) -> Grid {
        self.grid
    }

    /// Grid size in cells.
    pub closed spec fn dims_model(&self) -> (u32, u32) {
        self.dims
    }

    /// Where the left button went down or the pointer last moved while down.
    pub closed spec fn pointer(&self) -> Option<(i32, i32)> {
        self.mouse_pos
    }

    /// This model with the pointer at `p`.
    pub closed spec fn with_pointer(&self, p: Option<(i32, i32)>) -> Model {
        Model { mouse_pos: p, ..*self }
    }

    /// Half the window's size in pixels.
    pub closed spec fn view_offset(&self) -> (i32, i32) {
        self.offset
    }

    /// Side of a cell in pixels.
    pub closed spec fn cell_scale(&self) -> int {
        self.scale as int
    }

    /// Speed setting, an index into the speed table.
    pub closed spec fn speed_setting(&self) -> int {
        self.speed as int
    }

    /// Whether the simulation advances on its own.
    pub closed spec fn is_stepping(&self) -> bool {
        self.stepping
    }

    /// Frames seen so far.
    pub closed spec fn tick_count(&self) -> int {
        self.ticks as int
    }

    /// Whether timing information is printed.
    pub closed spec fn debug_on(&self) -> bool {
        self.debug
    }

    /// The grid is well formed, of the size recorded, and the speed setting
    /// and cell size are valid.
    pub closed spec fn wf(&self) -> bool {
        &&& self.grid.wf()
        &&& self.grid.cols() == self.dims.0
        &&& self.grid.rows() == self.dims.1
        &&& self.speed < SPEED_COUNT
        &&& self.scale > 0
    }

    /// Everything but the grid, the pointer, the speed, the stepping flag and
    /// the tick count is as in `other`.
    pub open spec fn same_frame(&self, other: &Model) -> bool {
        &&& self.dims_model() == other.dims_model()
        &&& self.view_offset() == other.view_offset()
        &&& self.cell_scale() == other.cell_scale()
        &&& self.debug_on() == other.debug_on()
    }

    /// The window of `args`, cut into cells of `args.resolution` pixels and
    /// seeded with a random pattern; running, at the given speed kept within
    /// the table. An error when the window holds no whole row or column of
    /// cells.
    pub fn new(args: &Args) -> (r: Result<Model, GridError>)
        requires
            args.resolution > 0,
            args.width <= i32::MAX,
            args.height <= i32::MAX,
            (args.width / args.resolution) * (args.height / args.resolution) <= usize::MAX,
        ensures
            (args.width / args.resolution == 0 || args.height / args.resolution == 0) <==> r is Err,
            r matches Err(e) ==> e == GridError::EmptyDimension,
            r matches Ok(m) ==> {
                &&& m.wf()
                &&& m.dims_model() == (
                    (args.width / args.resolution) as u32,
                    (args.height / args.resolution) as u32,
                )
                &&& preset_result(
                    Presets::Random,
                    Seq::new(
                        ((args.width / args.resolution) * (args.height / args.resolution)) as nat,
                        |i: int| false,
                    ),
                    m.grid_model()@,
                    (args.width / args.resolution) as int,
                    (args.height / args.resolution) as int,
                    false,
                )
                &&& !m.grid_model().overlay_on()
                &&& m.grid_model().rule_index() == 0
                &&& m.pointer() is None
                &&& m.view_offset() == ((args.width / 2) as i32, (args.height / 2) as i32)
                &&& m.cell_scale() == args.resolution
                &&& m.speed_setting() == clamped_speed(args.speed as int, 0)
                &&& m.is_stepping()
                &&& m.tick_count() == 0
                &&& m.debug_on() == args.debug
            },
    {
        let dims = (args.width / args.resolution, args.height / args.resolution);
        let mut grid = match Grid::new(dims.0, dims.1) {
            Ok(g) => g,
            Err(e) => {
                return Err(e);
            },
        };
        grid.preset(Presets::Random);
        let speed: usize = if (args.speed as usize) < SPEED_COUNT {
            args.speed as usize
        } else {
            SPEED_COUNT - 1
        };
        Ok(
            Model {
                debug: args.debug,
                mouse_pos: None,
                offset: ((args.width / 2) as i32, (args.height / 2) as i32),
                scale: args.resolution,
                speed,
                stepping: true,
                ticks: 0,
                dims,
                grid,
            },
        )
    }

    /// The grid.
    pub fn grid(&self) -> (r: &Grid)
        ensures
            *r == self.grid_model(),
    {
        &self.grid
    }

    /// Grid size in cells, width first.
    pub fn dims(&self) -> (r: (u32, u32))
        ensures
            r == self.dims_model(),
    {
        self.dims
    }

    /// Speed setting, an index into the speed table.
    pub fn speed(&self) -> (r: usize)
        ensures
            r == self.speed_setting(),
    {
        self.speed
    }

    /// Whether the simulation advances on its own.
    pub fn stepping(&self) -> (r: bool)
        ensures
            r == self.is_stepping(),
    {
        self.stepping
    }

    /// Frames seen so far.
    pub fn ticks(&self) -> (r: u64)
        ensures
            r == self.tick_count(),
    {
        self.ticks
    }

    /// Whether timing information is printed.
    pub fn debug(&self) -> (r: bool)
        ensures
            r == self.debug_on(),
    {
        self.debug
    }

    /// Moves the speed setting by `inc`, kept within the table.
    pub fn set_speed(&mut self, inc: isize)
        requires
            old(self).wf(),
        ensures
            final(self).wf(),
            final(self).same_frame(old(self)),
            final(self).grid_model() == old(self).grid_model(),
            final(self).pointer() == old(self).pointer(),
            final(self).is_stepping() == old(self).is_stepping(),
            final(self).tick_count() == old(self).tick_count(),
            final(self).speed_setting() == clamped_speed(old(self).speed_setting(), inc as int),
    {
        let last = (SPEED_COUNT - 1) as isize;
        let s = self.speed as isize;
        if inc < 0 && s + inc < 0 {
            self.speed = 0;
        } else if inc > last - s {
            self.speed = SPEED_COUNT - 1;
        } else {
            self.speed = (s + inc) as usize;
        }
    }

    /// Called once per frame: advances one generation when the simulation
    /// runs and the tick count is a multiple of the speed's divisor, then
    /// counts the tick (wrapping at the top of `u64`).
    pub fn step(&mut self)
        requires
            old(self).wf(),
        ensures
            final(self).wf(),
            final(self).same_frame(old(self)),
            final(self).pointer() == old(self).pointer(),
            final(self).speed_setting() == old(self).speed_setting(),
            final(self).is_stepping() == old(self).is_stepping(),
            final(self).tick_count() == (old(self).tick_count() + 1) % 0x1_0000_0000_0000_0000,
            final(self).grid_model().cols() == old(self).grid_model().cols(),
            final(self).grid_model().rows() == old(self).grid_model().rows(),
            final(self).grid_model().overlay_on() == old(self).grid_model().overlay_on(),
            final(self).grid_model().rule_index() == old(self).grid_model().rule_index(),
            final(self).grid_model()@ == if old(self).is_stepping() && old(self).tick_count()
                % speed_divisor(old(self).speed_setting()) == 0 {
                next_cells(
                    old(self).grid_model()@,
                    old(self).grid_model().cols(),
                    old(self).grid_model().rows(),
                    old(self).grid_model().rule_index(),
                )
            } else {
                old(self).grid_model()@
            },
    {
        if self.stepping && self.ticks % divisor(self.speed) == 0 {
            self.grid.step();
        }
        self.ticks = self.ticks.wrapping_add(1);
    }

    /// Pauses the simulation and advances exactly one generation.
    pub fn step_once(&mut self)
        requires
            old(self).wf(),
        ensures
            final(self).wf(),
            final(self).same_frame(old(self)),
            final(self).pointer() == old(self).pointer(),
            final(self).speed_setting() == old(self).speed_setting(),
            !final(self).is_stepping(),
            final(self).tick_count() == old(self).tick_count(),
            final(self).grid_model().cols() == old(self).grid_model().cols(),
            final(self).grid_model().rows() == old(self).grid_model().rows(),
            final(self).grid_model().overlay_on() == old(self).grid_model().overlay_on(),
            final(self).grid_model().rule_index() == old(self).grid_model().rule_index(),
            final(self).grid_model()@ == next_cells(
                old(self).grid_model()@,
                old(self).grid_model().cols(),
                old(self).grid_model().rows(),
                old(self).grid_model().rule_index(),
            ),
    {
        self.stepping = false;
        self.grid.step();
    }

    /// The active rule's name and whether the simulation runs, for the
    /// window's title.
    pub fn title_meta(&self) -> (r: (&'static str, &'static str))
        ensures
            r.0@ == rule_name(self.grid_model().rule_index()),
            r.1@ == if self.is_stepping() {
                RUNNING@
            } else {
                PAUSED@
            },
    {
        let rule = self.grid.rules().name();
        let running = if self.stepping {
            RUNNING
        } else {
            PAUSED
        };
        (rule, running)
    }

    /// Responds to an input event. Keys choose a pattern, toggle the overlay,
    /// cycle the rule, set the speed, step, pause or ask for a snapshot; the
    /// left button draws while it is down, mirrored while left shift is held.
    pub fn handle_event(&mut self, event: Event) -> (r: Action)
        requires
            old(self).wf(),
        ensures
            final(self).wf(),
            match event {
                Event::KeyPressed { key, shift } => key_handled(old(self), final(self), key, shift, r),
                Event::MouseMoved { x, y, lshift } => {
                    &&& r == Action::Nothing
                    &&& match old(self).pointer() {
                        Some(start) => {
                            &&& final(self).pointer() == Some((x, y))
                            &&& final(self).same_frame(old(self))
                            &&& final(self).speed_setting() == old(self).speed_setting()
                            &&& final(self).is_stepping() == old(self).is_stepping()
                            &&& final(self).tick_count() == old(self).tick_count()
                            &&& final(self).grid_model().cols() == old(self).grid_model().cols()
                            &&& final(self).grid_model().rows() == old(self).grid_model().rows()
                            &&& final(self).grid_model().overlay_on() == old(
                                self,
                            ).grid_model().overlay_on()
                            &&& final(self).grid_model().rule_index() == old(
                                self,
                            ).grid_model().rule_index()
                            &&& ({
                                let a = cell_of(start, old(self).view_offset(), old(self).cell_scale());
                                let b = cell_of((x, y), old(self).view_offset(), old(self).cell_scale());
                                final(self).grid_model()@ == if traceable(a) && traceable(b) {
                                    drawn(
                                        old(self).grid_model()@,
                                        line_points(as_point(a), as_point(b)),
                                        old(self).grid_model().cols(),
                                        old(self).grid_model().rows(),
                                        lshift,
                                        true,
                                    )
                                } else {
                                    old(self).grid_model()@
                                }
                            })
                        },
                        None => *final(self) == *old(self),
                    }
                },
                Event::MousePressed { button, x, y } => {
                    &&& r == Action::Nothing
                    &&& if button == MouseButton::Left {
                        *final(self) == old(self).with_pointer(Some((x, y)))
                    } else {
                        *final(self) == *old(self)
                    }
                },
                Event::MouseReleased { button } => {
                    &&& r == Action::Nothing
                    &&& if button == MouseButton::Left {
                        *final(self) == old(self).with_pointer(None)
                    } else {
                        *final(self) == *old(self)
                    }
                },
                Event::Other => r == Action::Nothing && *final(self) == *old(self),
            },
    {
        match event {
            Event::KeyPressed { key, shift } => {
                match key {
                    Key::C => self.grid.preset(Presets::Cross),
                    Key::G => self.grid.preset(Presets::Grid),
                    Key::I => self.grid.preset(Presets::Invert),
                    Key::O => self.grid.toggle_overlay(),
                    Key::R => self.grid.preset(Presets::Random),
                    Key::S => {
                        return Action::Snapshot;
                    },
                    Key::X => self.grid.preset(Presets::X),
                    Key::Back => self.grid.preset(Presets::Empty),
                    Key::Comma => self.grid.prev_rule(),
                    Key::Down => self.set_speed(1),
                    Key::Left => self.speed = 0,
                    Key::Return => self.step_once(),
                    Key::Right => self.speed = SPEED_COUNT - 1,
                    Key::Period => self.grid.next_rule(),
                    Key::Slash => {
                        if shift {
                            self.grid.random_rule();
                        } else {
                            self.grid.reset_rules();
                        }
                    },
                    Key::Space => self.stepping = !self.stepping,
                    Key::Up => self.set_speed(-1),
                    Key::Other => {},
                }
            },
            Event::MouseMoved { x, y, lshift } => {
                if let Some(start) = self.mouse_pos {
                    let offset = self.offset;
                    self.draw_line(start, (x, y), offset, lshift);
                    self.mouse_pos = Some((x, y));
                }
            },
            Event::MousePressed { button, x, y } => {
                if button == MouseButton::Left {
                    self.mouse_pos = Some((x, y));
                }
            },
            Event::MouseReleased { button } => {
                if button == MouseButton::Left {
                    self.mouse_pos = None;
                }
            },
            Event::Other => {},
        }
        Action::Nothing
    }

    /// Draws live cells along the line between the cells under the window
    /// points `start` and `end`, mirrored when `sym` is set. Nothing is drawn
    /// when a cell's coordinates do not fit in 32 bits.
    pub fn draw_line(&mut self, start: (i32, i32), end: (i32, i32), offset: (i32, i32), sym: bool)
        requires
            old(self).wf(),
        ensures
            final(self).wf(),
            final(self).same_frame(old(self)),
            final(self).pointer() == old(self).pointer(),
            final(self).speed_setting() == old(self).speed_setting(),
            final(self).is_stepping() == old(self).is_stepping(),
            final(self).tick_count() == old(self).tick_count(),
            final(self).grid_model().cols() == old(self).grid_model().cols(),
            final(self).grid_model().rows() == old(self).grid_model().rows(),
            final(self).grid_model().overlay_on() == old(self).grid_model().overlay_on(),
            final(self).grid_model().rule_index() == old(self).grid_model().rule_index(),
            ({
                let a = cell_of(start, offset, old(self).cell_scale());
                let b = cell_of(end, offset, old(self).cell_scale());
                final(self).grid_model()@ == if traceable(a) && traceable(b) {
                    drawn(
                        old(self).grid_model()@,
                        line_points(as_point(a), as_point(b)),
                        old(self).grid_model().cols(),
                        old(self).grid_model().rows(),
                        sym,
                        true,
                    )
                } else {
                    old(self).grid_model()@
                }
            }),
            ({
                let a = cell_of(start, offset, old(self).cell_scale());
                let b = cell_of(end, offset, old(self).cell_scale());
                traceable(a) && traceable(b) ==> line_shape(
                    as_point(a),
                    as_point(b),
                    line_points(as_point(a), as_point(b)),
                )
            }),
    {
        let ax = div_toward_zero(start.0 as i64 + offset.0 as i64, self.scale);
        let ay = div_toward_zero(offset.1 as i64 - start.1 as i64, self.scale);
        let bx = div_toward_zero(end.0 as i64 + offset.0 as i64, self.scale);
        let by = div_toward_zero(offset.1 as i64 - end.1 as i64, self.scale);
        let lo = i32::MIN as i64;
        let hi = i32::MAX as i64;
        if lo <= ax && ax <= hi && lo <= ay && ay <= hi && lo <= bx && bx <= hi && lo <= by && by <= hi {
            self.grid.draw_line((ax as i32, ay as i32), (bx as i32, by as i32), true, sym);
        }
    }
}

} // verus!
