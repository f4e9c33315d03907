//! World domain: the kingdom's physical space (ground, sky, background).

pub mod background;

pub use background::BackgroundStrip;
