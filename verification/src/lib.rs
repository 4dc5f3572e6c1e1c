//! Motion resolution for a modal text editor: cursor motions over a frozen
//! view of a document, and the spans that operators act on.

pub mod bracket;
pub mod chars;
pub mod display;
pub mod find;
pub mod laws;
pub mod line;
pub mod motion;
pub mod movement;
pub mod repeat;
pub mod selection;
pub mod word;
