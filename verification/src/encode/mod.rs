use vstd::prelude::*;
use crate::codes::FunctionKind;

/// Encoders for request frames.
pub mod request;

/// Encoders for response PDUs.
pub mod response;

verus! {

// ── FrameEncoder ──

/// A frame that a response is written into: a payload area after the
/// function code, and a way to finish the frame.
pub trait FrameEncoder {
    /// The payload area (after the function code).
    ///
    /// This default and the one of [FrameEncoder::spec_finalized] fit only an
    /// implementation that overrides them. A frame written in plain Rust
    /// cannot define spec functions and keeps the defaults; the contracts of
    /// this trait, and those of the encoders that take such a frame, then do
    /// not describe it (with an empty payload area they would announce
    /// `NotEnoughData` where the encoder succeeds).
    open spec fn spec_payload(&self) -> Seq<u8> {
        Seq::empty()
    }

    /// The function code and payload length the frame was finished with,
    /// once it was. Its default fits only an implementation that overrides
    /// it, as for [FrameEncoder::spec_payload].
    open spec fn spec_finalized(&self) -> Option<(FunctionKind, usize)> {
        None
    }

    /// Mutable access to the payload area (after function code).
    fn payload_mut(&mut self) -> (r: &mut [u8])
        ensures
            r@ == old(self).spec_payload(),
            final(self).spec_payload() == final(r)@,
            final(self).spec_finalized() == old(self).spec_finalized(),
    ;

    /// Maximum payload capacity.
    fn payload_capacity(&self) -> (r: usize)
        ensures
            r == self.spec_payload().len(),
    ;

    /// Finalize the frame with function code and payload length; the
    /// payload area stays as it is.
    fn finalize(&mut self, code: FunctionKind, payload_len: usize)
        requires
            payload_len <= old(self).spec_payload().len(),
        ensures
            final(self).spec_finalized() == Some((code, payload_len)),
            final(self).spec_payload() == old(self).spec_payload(),
    ;
}

} // verus!
