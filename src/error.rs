//! Errors of the scene codec.

use vstd::prelude::*;

verus! {

/// Why a scene dump could not be decoded.
#[derive(Debug, Copy, Clone, PartialEq, Eq, Structural)]
pub enum Error {
    /// The global channel byte is not one of 0..15; it carries the byte read.
    InvalidGlobalChannel(u8),
}

} // verus!
