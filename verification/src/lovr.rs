//! LÖVR's modules as the plugin sees them.
pub mod callbacks;
pub mod error;
pub mod event;
pub mod graphics;
