//! A keyboard-driven editor model for tabular text: the document, its undo
//! history, a one-slot clipboard and the state machine that keys drive.

mod clock;
pub mod keys;
pub mod laws;
pub mod machine;
pub mod model;
pub mod storage;
pub mod table;
pub mod text;
pub mod viewport;
