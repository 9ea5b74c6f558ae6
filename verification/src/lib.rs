//! A modal, line-oriented text-editing engine: the text buffer and its
//! mutation primitives, the key-dispatch state machine, per-language line
//! highlighters, snippet catalogues, autocomplete ranking and the viewport.
//!
//! The functions of the library are verified against contracts stated over
//! the views of the data (`Seq<char>` for a line, `BufferView` for a
//! buffer). What the proofs take on trust is marked where it stands, and is
//! no more than this:
//!
//! - in `text`, how the standard library classes a character
//!   (`char::is_whitespace`, `char::is_alphanumeric`, `char::is_numeric`) and
//!   what `String::push`, `String::pop` and `String::clear` do;
//! - in `buffer`, the three calls that read the system clock;
//! - in `render`, the `Debug` format of a string;
//! - in `terminal`, the readers that take the key, its modifiers and their
//!   names off an event of the terminal library.
//!
//! What depends on the clock or on a name that the terminal library formats
//! is not fixed by any contract: `Alert::check` has none, and a function
//! that raises a message or shows an event states what holds whatever the
//! clock or the name was.

pub mod actions;
pub mod autocomplete;
pub mod buffer;
pub mod direx;
pub mod files;
pub mod input;
pub mod keys;
pub mod languages;
pub mod motions;
pub mod nav;
pub mod numbers;
pub mod ranges;
pub mod render;
pub mod snippets;
pub mod symbols;
pub mod terminal;
pub mod text;
pub mod typing;
pub mod viewport;
