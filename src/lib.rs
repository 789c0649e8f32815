//! Typed codecs over a collaborative value store, and the projector that turns
//! structural change events into view notifications.
pub mod database;
pub mod folder;
pub mod json;
pub mod media;
pub mod media_kind;
pub mod number;
pub mod text;
pub mod value;
