//! Decision logic of a dating-profile front end: how the sections of a
//! profile are edited and saved, how prompts are reordered, which buttons,
//! labels and classes the views show, and which profiles a listing keeps.

pub mod button;
pub mod listing;
pub mod model;
pub mod parse;
pub mod peeps;
pub mod person;
pub mod position;
pub mod protector;
pub mod profile;
pub mod text;
