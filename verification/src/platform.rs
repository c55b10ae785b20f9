//! The host operating systems the mount manager knows how to drive.

use vstd::prelude::*;

verus! {

/// The operating system a request is executed on.  It is selected once, from
/// the host the program runs on, and passed through every operation.
#[derive(Clone, Copy, PartialEq, Eq, Structural, Debug)]
pub enum Platform {
    Windows,
    MacOS,
    Linux,
}

} // verus!
