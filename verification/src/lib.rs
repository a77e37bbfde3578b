//! Packet ownership and transmission-mode core for an ENet-style reliable
//! UDP transport.
//!
//! The library models the one place where a wrapper around such a transport
//! can corrupt memory: moving an owned byte buffer into a foreign packet
//! record without copying, and releasing that buffer exactly once no matter
//! which side of the boundary last touches it.  The verified [`packet`]
//! module carries the transmission-mode encoding and the packet lifecycle;
//! the unverified glue that talks to the real C library lives outside it.

use vstd::prelude::*;

pub mod packet;

verus! {

/// Why a packet could not be constructed.
#[derive(Copy, Clone, Debug, PartialEq, Eq, Structural)]
pub enum Error {
    /// The foreign allocator failed to produce a packet record.  The
    /// caller's buffer was not taken over and no release callback was
    /// registered.
    AllocationFailed,
}

} // verus!
