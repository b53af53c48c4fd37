//! Interaction and presentation core of a terminal inspector for executable
//! and ROM binary images.
//!
//! The crate holds the modal input state machine (command-line entry versus
//! widget-focused navigation), the generic focus-cycling and list-selection
//! protocols shared by every format viewer, the width-adaptive hex-dump
//! layout, and the format-dispatch rules that pair a loaded binary with its
//! viewer state. Terminal I/O, binary-format parsing and process bootstrap
//! are external collaborators and live outside this crate.

pub mod command;
pub mod cursor;
pub mod detect;
pub mod focus;
pub mod gb;
pub mod hex;
pub mod keys;
pub mod macho;
pub mod mule;
pub mod strutil;

pub use command::{Command, CommandBuffer};
pub use cursor::ListCursor;
pub use detect::{detect_format, DetectedFormat, MACHO_MAGIC};
pub use focus::{Direction, FocusCycle};
pub use keys::{InteractiveCommand, Key};
pub use mule::{Action, BinaryFile, InputMode, Mule, Session};
