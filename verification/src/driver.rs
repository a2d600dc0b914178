//! The native driver as the wrappers see it: its handles, and the calls by
//! which a resource is given back to it.

use vstd::prelude::*;

verus! {

/// The value by which the driver names one of its resources. It carries no
/// guarantee of its own: only a wrapper that holds it says that it is live.
pub type Handle = usize;

/// The handle that names nothing. The driver returns it where it could not
/// provide the resource that was asked for.
pub const NULL: Handle = 0;

/// One call that gives a resource back to the driver. Whoever receives a
/// `Release` owes the driver that call, once: the value cannot be copied, and
/// making the call uses it up.
#[must_use]
#[derive(Debug, PartialEq, Eq, Structural)]
pub enum Release {
    /// Free a string that the driver allocated and handed over.
    FreeText { text: Handle },
    /// Free a list of tags, and with it every tag in the list.
    FreeTags { tags: Handle },
    /// Close an open device.
    Close { device: Handle },
    /// Shut a reader context down.
    Exit { context: Handle },
}

impl Release {
    /// The handle that the call is made on.
    pub open spec fn handle(self) -> Handle {
        match self {
            Release::FreeText { text } => text,
            Release::FreeTags { tags } => tags,
            Release::Close { device } => device,
            Release::Exit { context } => context,
        }
    }
}

} // verus!
