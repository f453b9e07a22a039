//! The logic of an analog desktop clock: the face it draws, where its hands
//! point at a given time, the settings it keeps and the decisions it makes
//! while it runs. Drawing, windows and the operating system stay with the
//! program that uses this library.

pub mod color;
pub mod dial;
pub mod hands;
pub mod log_setting;
pub mod options;
pub mod pid_file;
pub mod settings;
pub mod window;
