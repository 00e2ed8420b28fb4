//! Platform layer of the Rust standard library for KolibriOS, as a verified library.
//!
//! The kernel is reached through `int 0x40` system calls, which stay outside this crate; what
//! the platform layer decides around them (how raw register values are decoded, how requests are
//! laid out, how replies are turned into results) lives here with its contracts.
pub mod api;
pub mod args;
pub mod common;
pub mod connection;
pub mod console;
pub mod datetime;
pub mod dll;
pub mod duration;
pub mod fs;
pub mod fs_block;
pub mod futex;
pub mod heap_alloc;
pub mod io_error;
pub mod kos_error;
pub mod net;
pub mod random;
pub mod sbrk;
pub mod stdio;
pub mod target_spec;
pub mod thread;
pub mod time;
pub mod tls_key;
