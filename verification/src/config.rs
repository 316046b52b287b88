use vstd::prelude::*;

verus! {

/// The compositor's tunable settings.
#[derive(Clone, Copy, Debug, PartialEq, Eq, Structural)]
pub struct Config {
    /// Height given to a newly created window, in pixels.
    pub window_height: u32,
    /// Gap between windows and around the columns, in pixels.
    pub gaps: u32,
    /// Number of windows that share the height of the viewport.
    pub visible_windows: u32,
}

impl Config {
    /// The settings used when no configuration file is present.
    pub open spec fn spec_default() -> Config {
        Config { window_height: 500, gaps: 1, visible_windows: 2 }
    }
}

impl Default for Config {
    fn default() -> (c: Config)
        ensures
            c == Config::spec_default(),
    {
        Config { window_height: 500, gaps: 1, visible_windows: 2 }
    }
}

} // verus!
