//! Classification of source files into programming languages, with a
//! colorized display layer and a per-language line-count summary.

pub mod color;
pub mod info;
pub mod language;
pub mod summary;
pub mod text;
