use vstd::prelude::*;
use crate::FunctionKind;
use crate::codes::{function_kind_byte, function_kind_from_byte};

verus! {

/// Read access to a protocol data unit: the function code byte followed by
/// the data of the request or response.
pub trait PduData {
    /// The bytes of the PDU, function code first.
    spec fn spec_pdu_data(&self) -> Seq<u8>;

    /// The function kind the PDU carries.
    spec fn spec_function_code(&self) -> FunctionKind;

    /// The length field that the frame carries, where it has one.
    spec fn spec_length(&self) -> Option<u16>;

    /// Whether the frame holds enough bytes for its PDU to be handed out.
    spec fn spec_pdu_available(&self) -> bool;

    fn pdu_data(&self) -> (r: &[u8])
        requires
            self.spec_pdu_available(),
        ensures
            r@ == self.spec_pdu_data(),
    ;

    /// The function kind is the one that the first PDU byte names.
    fn function_code(&self) -> (r: FunctionKind)
        ensures
            r == self.spec_function_code(),
            self.spec_pdu_available() && self.spec_pdu_data().len() > 0 ==> r
                == function_kind_from_byte(self.spec_pdu_data()[0]),
    ;

    fn length(&self) -> (r: Option<u16>)
        ensures
            r == self.spec_length(),
    ;
}

/// Write access to a protocol data unit.
pub trait PduDataMut: PduData {
    fn pdu_data_mut(&mut self) -> (r: &mut [u8])
        requires
            old(self).spec_pdu_available(),
        ensures
            r@ == old(self).spec_pdu_data(),
            final(self).spec_pdu_data() == final(r)@,
            final(self).spec_pdu_available(),
            final(self).spec_length() == old(self).spec_length(),
    ;

    fn set_function_code(&mut self, code: FunctionKind)
        requires
            old(self).spec_pdu_available(),
            old(self).spec_pdu_data().len() > 0,
        ensures
            final(self).spec_pdu_data() == old(self).spec_pdu_data().update(
                0,
                function_kind_byte(code),
            ),
            final(self).spec_pdu_available(),
            final(self).spec_length() == old(self).spec_length(),
    ;

    fn set_length(&mut self, length: u16)
        ensures
            final(self).spec_pdu_data() == old(self).spec_pdu_data(),
            final(self).spec_pdu_available() == old(self).spec_pdu_available(),
    ;
}

} // verus!
