//! A cross-platform manager for SMB/CIFS network shares.
//!
//! The library holds the decision logic of the mount manager: sanitizing
//! server addresses, allocating mount targets, building the native mount,
//! unmount and listing command lines, interpreting what those commands
//! returned, and parsing the output of the native listing command.  All of
//! that is pure computation over plain values and is verified.  Running the
//! native commands and touching the filesystem is left to the host program,
//! which feeds the results back in as `CommandResult` values.

pub mod platform;
pub mod text;
pub mod sanitize;
pub mod allocate;
pub mod command;
pub mod listing;
pub mod crud;
pub mod greeting;
