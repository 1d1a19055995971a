//! The transfer-program operation, around the external program encoder.
//!
//! The operation runs in two steps with the encoder between them: the
//! receiver's address is validated first, and the program that the encoder
//! built and serialized for it is then handed to the caller's buffer.
use vstd::prelude::*;
use crate::address::{Address, addr_from_bytes, ADDRESS_LENGTH};
use crate::handoff::{BridgeError, OutBuffer, handoff, lemma_handoff_deterministic, pass_data};

verus! {

/// The receiver's address, from the caller's input; `None` stands for a null
/// input.
pub fn transfer_receiver(receiver: Option<&[u8]>) -> (r: Result<Address, BridgeError>)
    ensures
        receiver is None ==> r == Err::<Address, BridgeError>(BridgeError::InvalidArgument),
        receiver is Some ==> {
            &&& r is Ok <==> receiver->0@.len() == ADDRESS_LENGTH
            &&& r is Ok ==> r->Ok_0@ == receiver->0@
            &&& r is Err ==> r->Err_0 == BridgeError::InvalidAddress
        },
{
    match receiver {
        Some(data) => addr_from_bytes(data),
        None => Err(BridgeError::InvalidArgument),
    }
}

/// The outcome of handing a serialized program (`None`: serialization
/// failed) to the buffer `before`, leaving `after`.
pub open spec fn program_handoff(
    before: OutBuffer,
    serialized: Option<Seq<u8>>,
    after: OutBuffer,
    r: Result<(), BridgeError>,
) -> bool {
    match serialized {
        Some(data) => handoff(before, data, after, r),
        None => r == Err::<(), BridgeError>(BridgeError::SerializationFailure) && after == before,
    }
}

/// Hands the serialized transfer program to the caller's buffer; `None`
/// stands for a program that could not be serialized, and leaves the buffer
/// untouched.
pub fn encode_transfer_program(serialized: Option<&[u8]>, out: &mut OutBuffer) -> (r: Result<(), BridgeError>)
    ensures
        program_handoff(*old(out), view_of(serialized), *final(out), r),
{
    match serialized {
        Some(data) => pass_data(data, out),
        None => Err(BridgeError::SerializationFailure),
    }
}

/// The bytes of an optional serialized program.
pub open spec fn view_of(serialized: Option<&[u8]>) -> Option<Seq<u8>> {
    match serialized {
        Some(d) => Some(d@),
        None => None,
    }
}

/// Handing the same serialized program to the same buffer twice gives the
/// same outcome and leaves the same bytes and size cell.
pub proof fn lemma_transfer_deterministic(
    before: OutBuffer,
    serialized: Option<Seq<u8>>,
    after1: OutBuffer,
    r1: Result<(), BridgeError>,
    after2: OutBuffer,
    r2: Result<(), BridgeError>,
)
    requires
        program_handoff(before, serialized, after1, r1),
        program_handoff(before, serialized, after2, r2),
    ensures
        r1 == r2,
        after1.bytes() == after2.bytes(),
        after1.size == after2.size,
{
    if let Some(data) = serialized {
        lemma_handoff_deterministic(before, data, after1, r1, after2, r2);
    }
}

} // verus!
