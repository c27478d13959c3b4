//! Pictures for the front end, as bytes.

pub mod sprite_map;
