//! Text, number and date helpers that the feed model and its transcoders share.

pub mod date;
pub mod decimal;
pub mod text;
