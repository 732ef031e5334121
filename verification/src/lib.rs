//! A client-side codec for the memcached binary protocol.
//!
//! The crate turns typed operations into framed binary requests and decodes
//! binary responses into typed results or typed errors. It performs no I/O:
//! every function maps plain values to plain values, and the byte transport
//! is left to the caller.

pub mod proto;
