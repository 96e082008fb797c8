//! A verified core for a staged, tool-driven interview that collects a
//! profession, tailored questions, the answers to them, and finally a
//! synthesized resume text from a completion backend.
//!
//! The library contains the turn-processing state machine: it decides what
//! information is still missing, builds the outbound request for the current
//! stage, interprets the backend's structured or free-text reply, enforces a
//! usage budget, and maintains a bounded conversational transcript.  The
//! transport that actually talks to the backend, persistence, rendering and
//! artifact storage are the caller's business; the library only emits
//! instructions for them.

pub mod message;
pub mod user;
pub mod survey;
pub mod json;
pub mod ask;
pub mod dialogue;
