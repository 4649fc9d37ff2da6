//! The core of an interactive fiction engine: the input state machine, the
//! game and menu models, the action protocol read from a content service's
//! replies, and the bounded turn history that each request carries.

pub mod action;
pub mod dispatcher;
pub mod game_loader;
pub mod layout;
pub mod message;
pub mod model;
pub mod text;
