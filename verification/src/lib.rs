//! A small graph of rooms connected by doors in the four compass
//! directions, built programmatically or parsed from a line-oriented
//! text file, and navigated one step at a time by single-character
//! commands.

pub mod direction;
pub mod parse;
pub mod rooms;
pub mod rooms_options;
pub mod session;
pub mod text;
