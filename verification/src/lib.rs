//! Bridge between an immediate-mode UI context and a GPU renderer:
//! frame lifecycle, draw-data hand-off, and user-texture registration.

pub mod errors;
pub mod format;
pub mod integration;
mod ui;
