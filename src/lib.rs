//! Platform-backend layer of a UI toolkit: translation of raw window events
//! into typed domain events, the per-frame event queue, the phase-scoped
//! context views over the backend, and the cooperative run-loop protocol.
pub mod backend;
pub mod event;
pub mod font;
pub mod fontdata;
pub mod glyphs;
pub mod laws;
pub mod platform;
pub mod queue;
pub mod runner;
