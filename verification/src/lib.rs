//! The decisions of an MCP server for KiCAD and of its live schematic viewer.
//!
//! Reading and writing, awaiting and showing windows is left to the programs around this library.
//! They hand it what they read and get told what to do next.

pub mod board;
pub mod error;
pub mod http;
pub mod json;
pub mod laws;
pub mod paths;
pub mod protocol;
pub mod server;
pub mod stdio;
pub mod text;
pub mod viewer;
pub mod watcher;
