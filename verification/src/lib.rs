//! Embedder integration layer for a windowed rendering engine.
//!
//! The library is the decision-making core of an embedder shim: it translates
//! native window events into engine input events, tracks the viewport in
//! device pixels, decides between busy-poll and blocking-wait scheduling,
//! models the transient GPU surface binding used to present a frame, and
//! drives the per-window lifecycle state machine through an orderly shutdown.
//! The host program performs the actual windowing, GL and engine calls and
//! feeds their outcomes back into these verified state machines.

pub mod coords;
pub mod events;
pub mod translate;
pub mod scheduler;
pub mod surface;
pub mod driver;
