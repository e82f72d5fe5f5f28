//! A small fixed-window pong simulation: a ball bounces inside an 800x600
//! canvas, a player paddle defends the bottom edge, and a perfectly tracking
//! bot paddle follows the ball near the top.
//!
//! The library holds the whole simulation logic — the entity model, the
//! per-frame update rules, the collision resolution, and the input-event
//! decisions — with contracts. Windowing, event polling and drawing live
//! outside the library.

pub mod entity;
pub mod collision;
pub mod input;
pub mod frame;
