//! Interactive control core of a GPU Mandelbrot explorer: rising-edge key
//! detection, the fullscreen state machine, device-precision negotiation,
//! frame timing, and the dispatch that turns window events into viewport
//! updates and ordered per-frame GPU work.
pub mod control;
pub mod edge;
pub mod fullscreen;
pub mod precision;
pub mod timing;
