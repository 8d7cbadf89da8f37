//! A minimal, host-agnostic modal keystroke engine in the style of vi.
//!
//! The engine interprets a stream of input events, keeps the modal state
//! (mode, counts, pending operators and multi-key sequences, visual anchor,
//! search prompt) and answers every event with a new cursor and an ordered
//! list of commands that the host applies to its own text buffer.  The text
//! itself stays with the host and is reached through the [`TextOps`] and
//! [`Clipboard`] capabilities.
//!
//! Modules:
//! - [`types`], [`key`]: positions, ranges, selections, modes, commands and
//!   input events;
//! - [`traits`]: the host's text queries and clipboard register;
//! - [`machine`]: the engine as a state machine, one transition per event;
//! - [`engine`]: the engine itself, proved to follow that transition;
//! - [`laws`]: properties of the transition over all buffers and events;
//! - [`text`]: grapheme clusters and line breaks in strings.

pub mod engine;
pub mod key;
pub mod laws;
pub mod machine;
pub mod text;
pub mod traits;
pub mod types;

pub use crate::engine::{paste_inserts, Engine, EngineBuilder, EngineSnapshot};
pub use crate::key::{InputEvent, KeyCode, KeyEvent, Modifiers};
pub use crate::traits::{Clipboard, TextOps};
pub use crate::types::{Command, Mode, Position, Range, Selection, VisualKind};
