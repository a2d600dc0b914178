//! A safety layer over a native NFC reader and tag driver.
//!
//! The driver hands out three kinds of resource, each through an unchecked
//! handle: a reader context, a device opened on that context, and the list of
//! tags found on that device. This library keeps the handles in wrapper types
//! that form the same chain,
//!
//! ```text
//! Nfc  <-  NfcDevice  <-  NfcTag
//! ```
//!
//! where each wrapper borrows the one it was made from. A wrapper exists only
//! for a handle that the driver really returned, it is given up by value, and
//! giving it up yields the one [`Release`] that the driver is owed for it.
//!
//! The library makes no native call itself. A caller makes the call, hands the
//! plain value that came back to the method that stands for the call, and
//! carries out every [`Release`] that it receives.

pub mod chain;
pub mod driver;
pub mod error;
pub mod laws;
pub mod model;
pub mod text;

pub use chain::{Nfc, NfcDevice, NfcTag, GATEKEEPER_ADDRESS};
pub use driver::{Handle, Release, NULL};
pub use error::{InitError, OpenError};
pub use model::{ContextView, DeviceView, TagView};
