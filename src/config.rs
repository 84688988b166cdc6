//! Application preferences.
use vstd::prelude::*;

verus! {

/// Preferences kept between runs.
#[derive(Clone, Debug, PartialEq)]
pub struct Settings {
    /// Engine path chosen by the user.
    pub ffmpeg_custom_path: Option<String>,
    /// Output directory used last.
    pub last_output_dir: Option<String>,
    /// Input directory used last.
    pub last_input_dir: Option<String>,
    /// Window position, x.
    pub window_x: Option<i32>,
    /// Window position, y.
    pub window_y: Option<i32>,
    /// Window width.
    pub window_width: Option<u32>,
    /// Window height.
    pub window_height: Option<u32>,
    /// Dark theme.
    pub dark_mode: bool,
    /// Notify when the queue is done.
    pub notify_on_complete: bool,
    /// Shut the machine down when the queue is done.
    pub shutdown_on_complete: bool,
}

impl Default for Settings {
    fn default() -> (r: Self)
        ensures
            r.ffmpeg_custom_path.is_none(),
            r.last_output_dir.is_none(),
            r.last_input_dir.is_none(),
            r.window_x.is_none(),
            r.window_y.is_none(),
            r.window_width == Some(1200u32),
            r.window_height == Some(800u32),
            r.dark_mode,
            r.notify_on_complete,
            !r.shutdown_on_complete,
    {
        Settings {
            ffmpeg_custom_path: None,
            last_output_dir: None,
            last_input_dir: None,
            window_x: None,
            window_y: None,
            window_width: Some(1200),
            window_height: Some(800),
            dark_mode: true,
            notify_on_complete: true,
            shutdown_on_complete: false,
        }
    }
}

} // verus!
