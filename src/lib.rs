//! Typing-test engine: content generation, keystroke tracking, statistics and
//! the test session state machine of a terminal typing trainer.
use vstd::prelude::*;

pub mod error;
pub mod language;
pub mod mode;
pub mod monkeytype;
pub mod punctuation;
pub mod search;
pub mod statistics;
mod strings;
pub mod tab;
pub mod typing;

pub use error::{Error, Result};
pub use language::Language;
pub use monkeytype::{MonkeyType, Quote, WordPick};
pub use typing::{TestPhase, TestState};

verus! {

/// Characters that make up one word when converting characters per minute
/// into words per minute.
pub const CHARS_PER_WORD: u64 = 5;

} // verus!
