//! Streaming core of a live-captioning tool: the rolling speech buffer and
//! its readiness heuristic, the capture-source state, the model readiness
//! gate, and the three-stage (collect, recognise, translate) session
//! pipeline, all as plain state machines with proved contracts.
//!
//! Audio samples are carried as the 32-bit patterns of their IEEE-754
//! single-precision values. Nothing in this crate interprets a sample; the
//! code that talks to the audio device and to the inference engines converts
//! at its boundary.

pub mod capture;
pub mod decode;
pub mod event;
pub mod gate;
pub mod laws;
pub mod pipeline;
pub mod ring;
pub mod speech;
pub mod state;
