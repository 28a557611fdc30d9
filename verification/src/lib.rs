//! Access-control appliance core: event orchestration and the bounded
//! audio delivery pipeline.
//!
//! The library holds the verified logic of an RFID door controller: decoding
//! card UIDs, checking codes against a local allow-list, the typed system
//! event bus, the door state machine, sentence splitting and pacing for
//! speech output, and the byte ring buffer that carries synthesized audio
//! frames to the output task. Hardware bring-up, networking and file storage
//! stay outside, behind plain-value interfaces.

pub mod audio;
pub mod auth;
pub mod bus;
pub mod common;
pub mod orchestrator;
pub mod rfid;
pub mod server;
pub mod speech;
