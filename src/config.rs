use vstd::prelude::*;

verus! {

/// Start-up settings of the simulation window.
#[derive(Clone, Copy, Debug, PartialEq, Eq, Structural)]
pub struct Args {
    /// Print timing information.
    pub debug: bool,
    /// Fill the screen instead of taking `width` and `height`.
    pub fullscreen: bool,
    /// Window width in pixels.
    pub width: u32,
    /// Window height in pixels.
    pub height: u32,
    /// Side of a cell in pixels.
    pub resolution: u32,
    /// Initial speed setting; higher is slower.
    pub speed: u8,
}

impl Default for Args {
    /// A 1200 by 900 window of 2-pixel cells at speed 1.
    fn default() -> (r: Self)
        ensures
            r == (Args {
                debug: false,
                fullscreen: false,
                width: 1200,
                height: 900,
                resolution: 2,
                speed: 1,
            }),
    {
        Args { debug: false, fullscreen: false, width: 1200, height: 900, resolution: 2, speed: 1 }
    }
}

} // verus!
