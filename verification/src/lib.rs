//! Notification bridge for a pomodoro timer: decodes status snapshots,
//! detects observable changes, and plans the external actions to run.

pub mod status;
pub mod text;
pub mod decode;
pub mod dialog;
pub mod dispatch;
pub mod engine;

pub use status::Status;
pub use status::TimerState;
