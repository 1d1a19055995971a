//! Returning variable-length output into caller-owned memory.
//!
//! The caller hands over a buffer and a size cell. On entry the size cell
//! holds the capacity; on exit it holds the size the data needs, and the data
//! is written only when it fits.
use vstd::prelude::*;
use vstd::string::StringSliceAdditionalSpecFns;

verus! {

/// Why a bridge operation failed.
#[derive(Debug, Clone, Copy, PartialEq, Eq, Structural)]
pub enum BridgeError {
    /// A buffer or size cell is missing, or the size cell claims more room
    /// than the buffer has.
    InvalidArgument,
    /// An address input does not have exactly the address length.
    InvalidAddress,
    /// The data needs `required` bytes, more than the buffer's capacity.
    BufferTooSmall { required: usize },
    /// The result could not be serialized.
    SerializationFailure,
    /// An external service (program encoder, resource decoder) failed.
    ExternalServiceFailure,
}

/// Caller-owned output memory and its size cell. `None` stands for a null
/// pointer.
pub struct OutBuffer {
    pub mem: Option<Vec<u8>>,
    pub size: Option<usize>,
}

impl OutBuffer {
    /// Both parts are present and the capacity does not exceed the memory.
    pub open spec fn is_valid(&self) -> bool {
        &&& self.mem is Some
        &&& self.size is Some
        &&& self.size->0 <= self.mem->0@.len()
    }

    /// The capacity announced in the size cell.
    pub open spec fn capacity(&self) -> nat {
        match self.size {
            Some(c) => c as nat,
            None => 0,
        }
    }

    /// The bytes of the caller's memory.
    pub open spec fn bytes(&self) -> Seq<u8> {
        match self.mem {
            Some(m) => m@,
            None => Seq::empty(),
        }
    }
}

/// The outcome of handing `data` to the buffer `before`, leaving `after`.
///
/// An invalid descriptor is refused and left untouched. Otherwise the size
/// cell receives the length of `data`; the data is written over the front of
/// the memory exactly when it fits the capacity, and the memory is left as it
/// was when it does not.
pub open spec fn handoff(before: OutBuffer, data: Seq<u8>, after: OutBuffer, r: Result<(), BridgeError>) -> bool {
    if !before.is_valid() {
        &&& r == Err::<(), BridgeError>(BridgeError::InvalidArgument)
        &&& after == before
    } else {
        &&& after.mem is Some
        &&& after.size == Some(data.len() as usize)
        &&& if data.len() <= before.capacity() {
            &&& r == Ok::<(), BridgeError>(())
            &&& after.bytes() == data + before.bytes().skip(data.len() as int)
        } else {
            &&& r == Err::<(), BridgeError>(BridgeError::BufferTooSmall { required: data.len() as usize })
            &&& after.bytes() == before.bytes()
        }
    }
}

/// Overwrites the front of `mem` with `data`.
fn copy_prefix(mem: &mut Vec<u8>, data: &[u8])
    requires
        data@.len() <= old(mem)@.len(),
    ensures
        final(mem)@ == data@ + old(mem)@.skip(data@.len() as int),
{
    let n = data.len();
    let mut i: usize = 0;
    while i < n
        invariant
            n == data@.len(),
            n <= old(mem)@.len(),
            i <= n,
            mem@.len() == old(mem)@.len(),
            forall|k: int| 0 <= k < i ==> mem@[k] == data@[k],
            forall|k: int| i <= k < mem@.len() ==> mem@[k] == old(mem)@[k],
        decreases n - i,
    {
        mem[i] = data[i];
        i = i + 1;
    }
    assert(mem@ =~= data@ + old(mem)@.skip(n as int));
}

/// Hands `data` to the caller's buffer: the size cell always ends up holding
/// the data's length, and the data is copied in only when it fits.
pub fn pass_data(data: &[u8], out: &mut OutBuffer) -> (r: Result<(), BridgeError>)
    ensures
        handoff(*old(out), data@, *final(out), r),
{
    let cap: usize = match out.size {
        Some(c) => c,
        None => {
            return Err(BridgeError::InvalidArgument);
        },
    };
    let mem_len: usize = match &out.mem {
        Some(m) => m.len(),
        None => {
            return Err(BridgeError::InvalidArgument);
        },
    };
    if cap > mem_len {
        return Err(BridgeError::InvalidArgument);
    }
    let len = data.len();
    out.size = Some(len);
    if len > cap {
        return Err(BridgeError::BufferTooSmall { required: len });
    }
    match &mut out.mem {
        Some(m) => {
            copy_prefix(m, data);
        },
        None => {},
    }
    Ok(())
}

/// Hands the UTF-8 bytes of `s` to the caller's buffer.
pub fn pass_string(s: &str, out: &mut OutBuffer) -> (r: Result<(), BridgeError>)
    ensures
        handoff(*old(out), s.spec_bytes(), *final(out), r),
{
    pass_data(s.as_bytes(), out)
}

/// A buffer whose capacity holds the data receives all of it: the call
/// succeeds, the front of the memory reads back as the data, and the size
/// cell holds the data's length.
pub proof fn lemma_handoff_round_trip(
    before: OutBuffer,
    data: Seq<u8>,
    after: OutBuffer,
    r: Result<(), BridgeError>,
)
    requires
        before.is_valid(),
        data.len() <= before.capacity(),
        handoff(before, data, after, r),
    ensures
        r is Ok,
        after.bytes().take(data.len() as int) == data,
        after.size == Some(data.len() as usize),
{
    assert(after.bytes().take(data.len() as int) =~= data);
}

/// A buffer too small for the data is not written: the call fails with the
/// required size, the memory is unchanged and the size cell holds the data's
/// length.
pub proof fn lemma_handoff_undersized(
    before: OutBuffer,
    data: Seq<u8>,
    after: OutBuffer,
    r: Result<(), BridgeError>,
)
    requires
        before.is_valid(),
        data.len() > before.capacity(),
        handoff(before, data, after, r),
    ensures
        r == Err::<(), BridgeError>(BridgeError::BufferTooSmall { required: data.len() as usize }),
        after.bytes() == before.bytes(),
        after.size == Some(data.len() as usize),
{
}

/// After a buffer-too-small failure, handing the same data to a valid buffer
/// whose capacity is the size reported back succeeds and delivers the data.
pub proof fn lemma_handoff_retry(
    first: OutBuffer,
    data: Seq<u8>,
    first_after: OutBuffer,
    first_r: Result<(), BridgeError>,
    retry: OutBuffer,
    retry_after: OutBuffer,
    retry_r: Result<(), BridgeError>,
)
    requires
        data.len() <= usize::MAX,
        handoff(first, data, first_after, first_r),
        first_r is Err,
        first_r->Err_0 is BufferTooSmall,
        retry.is_valid(),
        retry.size == first_after.size,
        handoff(retry, data, retry_after, retry_r),
    ensures
        retry_r is Ok,
        retry_after.bytes().take(data.len() as int) == data,
        retry_after.size == Some(data.len() as usize),
{
    lemma_handoff_round_trip(retry, data, retry_after, retry_r);
}

/// Handing the same data to the same buffer twice gives the same outcome,
/// the same memory and the same size cell.
pub proof fn lemma_handoff_deterministic(
    before: OutBuffer,
    data: Seq<u8>,
    after1: OutBuffer,
    r1: Result<(), BridgeError>,
    after2: OutBuffer,
    r2: Result<(), BridgeError>,
)
    requires
        handoff(before, data, after1, r1),
        handoff(before, data, after2, r2),
    ensures
        r1 == r2,
        after1.bytes() == after2.bytes(),
        after1.size == after2.size,
{
}

} // verus!
