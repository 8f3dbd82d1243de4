//! Core logic of a desktop launcher that supervises a separately built
//! backend server process.
//!
//! The library holds the decisions of the launcher: choosing a free TCP
//! port from a range, building and resolving the candidate locations of
//! the backend executable, deciding the outcome of a bounded health
//! probe, encoding and decoding the port value that travels through the
//! environment, and tracking the life cycle of the single backend
//! process handle.  The surrounding binary performs the actual network,
//! file-system and process operations and feeds their outcomes to these
//! functions.

pub mod commands;
pub mod decimal;
pub mod health;
pub mod paths;
pub mod ports;
pub mod supervisor;
