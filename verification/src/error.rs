//! The two ways in which building the chain can fail.

use vstd::prelude::*;

verus! {

/// The driver could not start: its initialisation returned no context.
#[derive(Clone, Copy, Debug, PartialEq, Eq, Structural)]
pub struct InitError;

/// No device could be opened at the address that was given.
#[derive(Clone, Copy, Debug, PartialEq, Eq, Structural)]
pub struct OpenError;

} // verus!
