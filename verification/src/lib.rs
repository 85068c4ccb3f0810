//! Decision logic of a small desktop clipboard backend.
//!
//! Four operations are offered to a GUI shell: write text to the system
//! clipboard, read text back, simulate a "copy selection" keystroke through a
//! helper process, and broadcast an "escape" keystroke to other applications.
//! The operating-system calls themselves (the clipboard service, spawning the
//! helper interpreter) happen outside this crate; the library holds every
//! decision around them — which helper to launch on which platform, how to
//! judge its exit status, and the exact feedback message for each outcome —
//! and proves those decisions correct.

pub mod clipboard;
pub mod digits;
pub mod helper;
pub mod keystroke;
pub mod platform;
pub mod text;
