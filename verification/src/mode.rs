//! Ways of driving the panel.

pub mod terminal;
