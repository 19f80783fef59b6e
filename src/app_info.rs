use vstd::prelude::*;

verus! {

/// Start-up configuration of an application window and its graphics context.
///
/// It is supplied once, before the window is created, and read-only afterwards.
#[derive(Clone, Copy)]
pub struct AppInfo {
    pub title: &'static str,
    pub window_width: u32,
    pub window_height: u32,
    pub major_version: u32,
    pub minor_version: u32,
    pub samples: usize,
    pub fullscreen: bool,
    pub vsync: bool,
    pub cursor: bool,
    pub stereo: bool,
    pub debug: bool,
}

/// Major version of the core-profile context requested by default.
pub const DEFAULT_MAJOR_VERSION: u32 = 4;

/// Minor version of the core-profile context requested by default.
pub const DEFAULT_MINOR_VERSION: u32 = 4;

impl AppInfo {
    /// The graphics-context version requested by default, as (major, minor).
    pub fn version() -> (r: (u32, u32))
        ensures
            r == (DEFAULT_MAJOR_VERSION, DEFAULT_MINOR_VERSION),
    {
        (DEFAULT_MAJOR_VERSION, DEFAULT_MINOR_VERSION)
    }

    /// The documented default configuration: an 800 x 600 window titled
    /// "SuperBible6 Example", the default context version, no multisampling,
    /// windowed, no vsync, a visible cursor, no stereo and no debug context.
    pub fn default() -> (r: AppInfo)
        ensures
            r.title@ == "SuperBible6 Example"@,
            r.window_width == 800,
            r.window_height == 600,
            r.major_version == DEFAULT_MAJOR_VERSION,
            r.minor_version == DEFAULT_MINOR_VERSION,
            r.samples == 0,
            !r.fullscreen,
            !r.vsync,
            r.cursor,
            !r.stereo,
            !r.debug,
    {
        let (major, minor) = AppInfo::version();
        AppInfo {
            title: "SuperBible6 Example",
            window_width: 800,
            window_height: 600,
            major_version: major,
            minor_version: minor,
            samples: 0,
            fullscreen: false,
            vsync: false,
            cursor: true,
            stereo: false,
            debug: false,
        }
    }
}

} // verus!
