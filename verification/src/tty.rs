//! The terminal device: the write side for probes and the platform
//! mode-control interface, consumed as one interface.
//!
//! Mode attributes are opaque to the negotiation core: it only saves,
//! transforms and restores them. `TermAttrs` stands for one attribute
//! configuration as a plain token; the platform side of an implementation
//! keeps whatever native structure the token denotes.

use vstd::prelude::*;

use crate::error::IoError;

verus! {

/// One terminal mode-attribute configuration, held as an opaque token.
#[derive(Clone, Copy, Debug, PartialEq, Eq, Structural)]
pub struct TermAttrs(pub u64);

/// Write and mode-control access to the controlling terminal.
///
/// `attrs()` is the attribute configuration the terminal currently has;
/// `written()` is the log of every byte written to the device so far.
/// `raw_of` is the implementation's fixed transformation of a configuration
/// into raw semantics (no canonical processing, no echo, no signal
/// generation).
pub trait TerminalIo {
    /// The terminal's current mode attributes. The default model is a
    /// fixed configuration; an implementation overrides this with its own
    /// state.
    open spec fn attrs(&self) -> TermAttrs {
        TermAttrs(0)
    }

    /// Every byte written to the terminal so far, in order. The default
    /// model is an empty log; an implementation overrides this with its
    /// own state.
    open spec fn written(&self) -> Seq<u8> {
        Seq::empty()
    }

    /// The raw-semantics transformation of an attribute configuration.
    /// The identity by default; an implementation overrides this with its
    /// own transformation.
    open spec fn raw_of(a: TermAttrs) -> TermAttrs {
        a
    }

    /// Reads the current mode attributes without changing anything.
    fn get_attrs(&mut self) -> (r: Result<TermAttrs, IoError>)
        ensures
            final(self).attrs() == old(self).attrs(),
            final(self).written() == old(self).written(),
            r matches Ok(a) ==> a == old(self).attrs(),
    ;

    /// Transforms a configuration into its raw-semantics counterpart.
    fn raw_attrs(&self, a: &TermAttrs) -> (r: TermAttrs)
        ensures
            r == Self::raw_of(*a),
    ;

    /// Applies a configuration. On success the terminal has exactly that
    /// configuration; on failure the attributes are unspecified, but no
    /// bytes were written.
    fn set_attrs(&mut self, a: &TermAttrs) -> (r: Result<(), IoError>)
        ensures
            final(self).written() == old(self).written(),
            r is Ok ==> final(self).attrs() == *a,
    ;

    /// Writes bytes to the terminal device. On success all of them were
    /// written, in order; on failure some prefix may have been.
    fn write_bytes(&mut self, bytes: &[u8]) -> (r: Result<(), IoError>)
        ensures
            final(self).attrs() == old(self).attrs(),
            r is Ok ==> final(self).written() == old(self).written() + bytes@,
            r is Err ==> old(self).written().is_prefix_of(final(self).written()),
    ;
}

} // verus!
