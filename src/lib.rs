//! Badges and status labels for a wallet interface, built as plain widget
//! trees that a rendering toolkit lays out and paints.

pub mod style;
pub mod tree;
pub mod badge;

