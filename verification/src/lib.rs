//! Client-side binding layer for a native test-optimization component.
//!
//! The library holds everything that is decided on the host side of the
//! boundary: how strings, tag maps and timestamps are laid out for the native
//! side, which request each operation of the session / module / suite / test /
//! span hierarchy sends, and how the flat arrays that come back are decoded
//! into host-owned values. Performing a request is left to the caller, who
//! hands the raw reply back to the library.

pub mod boundary;
pub mod catalogs;
pub mod codec;
pub mod grouped;
pub mod lifecycle;
pub mod management;
pub mod marshal;
pub mod mock_tracer;
pub mod name_map;
pub mod requests;
pub mod settings;
pub mod span;
pub mod test;
pub mod test_module;
pub mod test_optimization;
pub mod test_session;
pub mod test_suite;
pub mod well_formed;
