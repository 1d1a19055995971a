//! Account addresses and their validation from raw bytes.
use vstd::prelude::*;
use crate::handoff::BridgeError;

verus! {

/// The length in bytes of an account address.
pub const ADDRESS_LENGTH: usize = 32;

/// A fixed-length account identifier, owned by value.
#[derive(Debug, Clone, Copy)]
pub struct Address {
    pub bytes: [u8; ADDRESS_LENGTH],
}

impl View for Address {
    type V = Seq<u8>;

    open spec fn view(&self) -> Seq<u8> {
        self.bytes@
    }
}

/// Accepts exactly the inputs of the address length, and copies them into an
/// owned address; every other length is an invalid address.
pub fn addr_from_bytes(data: &[u8]) -> (r: Result<Address, BridgeError>)
    ensures
        r is Ok <==> data@.len() == ADDRESS_LENGTH,
        r is Ok ==> r->Ok_0@ == data@,
        r is Err ==> r->Err_0 == BridgeError::InvalidAddress,
{
    if data.len() != ADDRESS_LENGTH {
        return Err(BridgeError::InvalidAddress);
    }
    let mut bytes: [u8; ADDRESS_LENGTH] = [0u8; ADDRESS_LENGTH];
    let mut i: usize = 0;
    while i < ADDRESS_LENGTH
        invariant
            data@.len() == ADDRESS_LENGTH,
            i <= ADDRESS_LENGTH,
            bytes@.len() == ADDRESS_LENGTH,
            forall|k: int| 0 <= k < i ==> bytes@[k] == data@[k],
        decreases ADDRESS_LENGTH - i,
    {
        bytes[i] = data[i];
        i = i + 1;
    }
    assert(bytes@ =~= data@);
    Ok(Address { bytes })
}

} // verus!
