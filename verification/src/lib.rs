//! Core building blocks for a WebSocket library: a unified error taxonomy
//! into which every subsystem failure (HTTP parsing, URL parsing, TLS
//! negotiation, raw I/O, protocol validation) is converted exactly once.

pub mod result;
