//! Core of a small dashboard server: the pieces with real engineering
//! content, verified.
//!
//! The library covers the server's bootstrap and shared-state layer:
//! choosing and preparing the transport listener, the accept loop's
//! fault-isolation discipline, and the hot-reloadable template store whose
//! reload is atomic with respect to concurrent renders. Route handlers,
//! SQL, and the HTTP plumbing around this core are ordinary collaborators
//! and live outside the library.

pub mod models;
pub mod server;
pub mod state;
pub mod templates;
pub mod transport;
