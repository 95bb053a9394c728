//! A minimal static-site generator library.
//!
//! The library holds the logic of a small blog generator: it parses a
//! two-field configuration text, builds a template collection and a render
//! context, renders the index page, and checks the command-line arguments.
//! Reading and writing files is left to the surrounding program, which hands
//! the library plain values.

pub mod args;
pub mod config;
pub mod error;
pub mod outdir;
pub mod pipeline;
pub mod templates;
