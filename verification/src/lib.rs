//! Locate a running process by executable name and read or write typed
//! integer values in its memory, relative to the base address of its loaded
//! image.
//!
//! The library is the decision core of such a tool: name matching, module
//! resolution, little-endian coding of the transferred values, classification
//! of raw OS results, and the checked arithmetic of the composite
//! read-modify-write operations. The operating-system calls themselves
//! (snapshot, open, read, write, close) live with the caller, which feeds
//! their raw outcomes to this library and acts on the returned decisions.

pub mod api;
pub mod cli;
pub mod errors;
pub mod game_handle;
pub mod process;
pub mod wide;

pub use errors::GamecheatError;
