//! A retained-mode GUI element tree: views, components, change tracking and
//! the text and event rules around them.

pub mod egml;
mod strings;
pub mod ui;
