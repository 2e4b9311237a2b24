//! Juno: a command-line music player that runs as a gRPC server, or acts as
//! a client of an already running server.
//!
//! This crate holds the player's decision logic, verified with Verus:
//! paths and the sandbox check on them, the configuration, the play queue,
//! the file-listing plan, and the mapping between commands, requests and
//! replies. Audio output, file-system walking, sockets and the gRPC
//! transport are performed by the program around this library.

pub mod configuration;
pub mod control;
pub mod file_explorer;
pub mod grpc;
pub mod path;
pub mod player;
