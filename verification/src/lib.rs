//! FerrisDex: a terminal Pokedex. This library holds its verified logic: the
//! command line, the configuration, the choice of sprite URL, the checks of a
//! sprite download and the layout of the text shown beside the sprite.

pub mod text;
pub mod config;
pub mod cli;
pub mod api;
pub mod display;
pub mod terminal;
