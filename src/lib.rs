//! Application shell for small OpenGL demos: the start-up configuration, the
//! translation of window events into application callbacks, and the lifecycle
//! state machine that orders those callbacks frame by frame.

pub mod app_info;
pub mod events;
pub mod run_loop;

pub use app_info::AppInfo;
pub use events::{handle_window_event, EventResponse, KeyAction, WindowEvent, KEY_ESCAPE};
pub use run_loop::{LoopAction, RunLoop, Stage};
