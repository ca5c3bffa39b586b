//! Advert rendering pipeline: validated advert templates, a location
//! fallback chain, a text compositor over a sprite-sheet base image, a
//! bounded-concurrency render gate, and the per-request response state
//! machine of the HTTP front end.

pub mod advert;
pub mod catalog;
pub mod gate;
pub mod handler;
pub mod imaging;
pub mod location;
pub mod render;
