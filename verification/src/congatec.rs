//! The library context: the root of the ownership chain.
//!
//! A `Congatec` value is the token proving that the process-wide
//! hardware-management interface has been initialized. Exactly one live
//! instance is intended. Every `Board` is opened against a borrow of this
//! token, so the context can only be torn down once every board opened from
//! it — and every accessor derived from those boards — is gone; the borrow
//! checker rejects any other order.

use vstd::prelude::*;

verus! {

/// Token for the initialized hardware-management interface.
///
/// The surrounding application layer performs the interface's one-time
/// global setup (and its teardown, after this token is dropped); this type
/// carries the resulting capability through the ownership chain.
pub struct Congatec {}

impl Congatec {
    /// Creates the context token. To be called once, directly after the
    /// application layer has initialized the underlying interface.
    pub fn new() -> Congatec {
        Congatec {}
    }
}

} // verus!
