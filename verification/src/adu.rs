use vstd::prelude::*;

verus! {

/// Access to the bytes of an application data unit (a whole frame).
pub trait AduData {
    /// The bytes of the ADU.
    spec fn spec_adu_data(&self) -> Seq<u8>;

    /// Whether the frame's length fits its buffer.
    spec fn spec_adu_available(&self) -> bool;

    fn adu_data(&self) -> (r: &[u8])
        requires
            self.spec_adu_available(),
        ensures
            r@ == self.spec_adu_data(),
    ;

    fn adu_length(&self) -> (r: usize)
        ensures
            self.spec_adu_available() ==> r == self.spec_adu_data().len(),
    ;
}

} // verus!
