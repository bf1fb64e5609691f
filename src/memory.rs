//! The host allocator bridge: the calls made into the host's allocate and free
//! callbacks, how large a block each payload needs, and how an answer is read.
use vstd::prelude::*;

verus! {

/// One call into the host's memory manager.
#[derive(Clone, Copy, PartialEq, Eq, Structural, Debug)]
pub enum HostCall {
    /// Ask for a block of `bytes` bytes.
    Alloc { bytes: usize },
    /// Give back the block at `ptr`.
    Free { ptr: usize },
}

/// Bytes that a UTF-16 string of `len` units occupies.
pub open spec fn str_bytes(len: nat) -> nat {
    2 * len
}

/// The request for a block of `len` UTF-16 units; `None` when its size in bytes does not
/// fit in `usize`.
pub open spec fn str_request(len: nat) -> Option<HostCall> {
    if str_bytes(len) <= usize::MAX {
        Some(HostCall::Alloc { bytes: str_bytes(len) as usize })
    } else {
        None
    }
}

/// The reference to the host's memory manager, received when the host attaches it.
#[derive(Clone, Copy, PartialEq, Eq, Structural, Debug)]
pub struct MemoryManager {
    /// Address of the host's manager object.
    pub addr: usize,
}

impl MemoryManager {
    /// The request for a block that holds `len` UTF-16 units; `None` when its size in
    /// bytes does not fit in `usize`.
    pub fn alloc_str(&self, len: usize) -> (r: Option<HostCall>)
        ensures
            r == str_request(len as nat),
    {
        match len.checked_mul(2) {
            Some(bytes) => Some(HostCall::Alloc { bytes }),
            None => None,
        }
    }

    /// The request for a block that holds `len` bytes.
    pub fn alloc_blob(&self, len: usize) -> (r: HostCall)
        ensures
            r == (HostCall::Alloc { bytes: len }),
    {
        HostCall::Alloc { bytes: len }
    }

    /// The call that gives back the string block at `ptr`.
    pub fn free_str(&self, ptr: usize) -> (r: HostCall)
        ensures
            r == (HostCall::Free { ptr }),
    {
        HostCall::Free { ptr }
    }

    /// The call that gives back the byte block at `ptr`.
    pub fn free_blob(&self, ptr: usize) -> (r: HostCall)
        ensures
            r == (HostCall::Free { ptr }),
    {
        HostCall::Free { ptr }
    }
}

/// Reads the host's answer to an allocation: the block's address when the host reported
/// success and handed back a non-null address.
pub fn accept_block(ok: bool, ptr: usize) -> (r: Option<usize>)
    ensures
        r == (if ok && ptr != 0 { Some(ptr) } else { None::<usize> }),
{
    if ok && ptr != 0 {
        Some(ptr)
    } else {
        None
    }
}

} // verus!
