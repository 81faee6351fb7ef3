pub mod event;
pub mod keys;
pub mod laws;
pub mod model;
pub mod protocol;
pub mod terminal;
pub mod tokenizer;
pub mod utf8;

pub use terminal::{Size, TerminalInner};
pub use utf8::Utf8Carry;
