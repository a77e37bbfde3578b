//! Packets, their transmission modes, and the bit-exact wire encoding.
//!
//! A [`Packet`] models a foreign packet record that has taken ownership of a
//! caller-supplied byte buffer without copying it.  The record carries the
//! buffer, the capacity it was allocated with (needed to hand the storage
//! back to the allocator correctly), a flag word, and whether a release
//! callback for the caller's storage was registered.  The [`Engine`] type is
//! the ledger of the transport engine's allocator: every transfer of a
//! buffer into a record and every firing of a release callback is counted
//! there, so that "released exactly once, no matter which side last touched
//! the buffer" is a stated, checked property rather than a convention.

use crate::Error;
use vstd::prelude::*;

verus! {

/// Packet must be received by the target peer and resent until delivered.
/// Matches the transport's `ENET_PACKET_FLAG_RELIABLE` bit.
pub const FLAG_RELIABLE: u32 = 1;

/// Packet will not be sequenced with other packets.
/// Matches the transport's `ENET_PACKET_FLAG_UNSEQUENCED` bit.
pub const FLAG_UNSEQUENCED: u32 = 2;

/// The record must reuse caller-supplied storage instead of copying.
/// Matches the transport's `ENET_PACKET_FLAG_NO_ALLOCATE` bit.
pub const FLAG_NO_ALLOCATE: u32 = 4;

/// Packet exceeding the MTU is fragmented with unreliable sends.
/// Matches the transport's `ENET_PACKET_FLAG_UNRELIABLE_FRAGMENT` bit.
pub const FLAG_UNRELIABLE_FRAGMENT: u32 = 8;

/// Mode that can be set when transmitting a packet.
///
/// The transport does not support reliable but unsequenced packets, so no
/// such variant exists: that combination is unconstructible by design.
#[derive(Copy, Clone, Debug, Hash, Eq, PartialEq, Structural)]
pub enum PacketMode {
    /// The packet will be sent unreliably but sequenced (the transport's
    /// default).
    UnreliableSequenced,
    /// The packet will be sent unreliably and unsequenced.
    UnreliableUnsequenced,
    /// The packet will be sent unreliably, unsequenced, and in case it
    /// exceeds the MTU it will be fragmented using unreliable sends.
    UnreliableUnsequencedUnreliablyFragmented,
    /// The packet will be sent reliably and sequenced with other reliable
    /// packets.
    ReliableSequenced,
}

impl PacketMode {
    /// Whether this mode asks for reliable delivery.
    pub open spec fn spec_is_reliable(self) -> bool {
        self is ReliableSequenced
    }

    /// Whether this mode keeps packets in sequence.
    pub open spec fn spec_is_sequenced(self) -> bool {
        self is UnreliableSequenced || self is ReliableSequenced
    }

    /// The flag bits this mode contributes to the record's flag word.
    pub open spec fn spec_wire_flags(self) -> u32 {
        match self {
            PacketMode::UnreliableSequenced => 0u32,
            PacketMode::UnreliableUnsequenced => FLAG_UNSEQUENCED,
            PacketMode::UnreliableUnsequencedUnreliablyFragmented => FLAG_UNSEQUENCED
                | FLAG_UNRELIABLE_FRAGMENT,
            PacketMode::ReliableSequenced => FLAG_RELIABLE,
        }
    }

    /// Returns whether this represents a reliable mode.
    pub fn is_reliable(&self) -> (r: bool)
        ensures
            r == self.spec_is_reliable(),
    {
        match self {
            PacketMode::UnreliableSequenced => false,
            PacketMode::UnreliableUnsequenced => false,
            PacketMode::UnreliableUnsequencedUnreliablyFragmented => false,
            PacketMode::ReliableSequenced => true,
        }
    }

    /// Returns whether this represents a sequenced mode.
    pub fn is_sequenced(&self) -> (r: bool)
        ensures
            r == self.spec_is_sequenced(),
    {
        match self {
            PacketMode::UnreliableSequenced => true,
            PacketMode::UnreliableUnsequenced => false,
            PacketMode::UnreliableUnsequencedUnreliablyFragmented => false,
            PacketMode::ReliableSequenced => true,
        }
    }

    /// Translates this mode into the transport's flag encoding.
    pub fn to_sys_flags(self) -> (r: u32)
        ensures
            r == self.spec_wire_flags(),
    {
        match self {
            PacketMode::UnreliableSequenced => 0u32,
            PacketMode::UnreliableUnsequenced => FLAG_UNSEQUENCED,
            PacketMode::UnreliableUnsequencedUnreliablyFragmented => FLAG_UNSEQUENCED
                | FLAG_UNRELIABLE_FRAGMENT,
            PacketMode::ReliableSequenced => FLAG_RELIABLE,
        }
    }
}

/// The foreign packet record, as this layer configures and reads it: the
/// byte buffer the record owns, the allocated capacity stashed in the
/// record's user field, the record's flag word, and whether a release
/// callback for caller-supplied storage was registered.
struct Record {
    buffer: Vec<u8>,
    capacity_tag: usize,
    flags: u32,
    callback_registered: bool,
}

/// Relies on std's `Vec::capacity`: the number of elements a vector can
/// hold without reallocating, which is never less than its length.
#[verifier::external_body]
fn vec_capacity(v: &Vec<u8>) -> (c: usize)
    ensures
        v@.len() <= c,
{
    v.capacity()
}

/// The transport engine's allocator ledger.  It stands for the engine
/// boundary: it decides whether an allocation succeeds and counts every
/// record made or destroyed, every caller buffer taken over, and every
/// release callback fired.  A caller that keeps the ledger balanced —
/// as many buffers freed as taken — has neither leaked nor double-freed.
pub struct Engine {
    /// Records the allocator has produced.
    pub records_created: u64,
    /// Records destroyed by the engine's destroy routine.
    pub records_destroyed: u64,
    /// Caller buffers whose ownership was transferred into a record.
    pub buffers_taken: u64,
    /// Release callbacks fired for caller-supplied storage.
    pub buffers_freed: u64,
    /// Instrumentation: when set, the next allocation reports failure and
    /// the knob clears.
    pub fail_next_alloc: bool,
}

/// What a successful construction does to the engine ledger: one record
/// produced, one caller buffer taken over, nothing destroyed or freed.
pub open spec fn create_step(pre: Engine, post: Engine) -> bool {
    &&& post.records_created == pre.records_created + 1
    &&& post.buffers_taken == pre.buffers_taken + 1
    &&& post.records_destroyed == pre.records_destroyed
    &&& post.buffers_freed == pre.buffers_freed
    &&& post.fail_next_alloc == false
}

/// What a failed construction does to the engine ledger: nothing, beyond
/// clearing the failure knob.  No buffer is taken over and no release
/// callback is registered, so the caller's buffer still goes out of scope
/// normally and the engine holds nothing to free.
pub open spec fn failed_create_step(pre: Engine, post: Engine) -> bool {
    &&& post.records_created == pre.records_created
    &&& post.buffers_taken == pre.buffers_taken
    &&& post.records_destroyed == pre.records_destroyed
    &&& post.buffers_freed == pre.buffers_freed
    &&& post.fail_next_alloc == false
}

/// What destroying one record does to the engine ledger: the record is
/// gone, and the release callback fires exactly once if and only if one
/// was registered; a record over engine-allocated storage is freed by the
/// engine's own path instead, with no callback involved.
pub open spec fn destroy_step(pre: Engine, post: Engine, callback_registered: bool) -> bool {
    &&& post.records_destroyed == pre.records_destroyed + 1
    &&& post.buffers_freed == pre.buffers_freed + (if callback_registered {
        1int
    } else {
        0int
    })
    &&& post.records_created == pre.records_created
    &&& post.buffers_taken == pre.buffers_taken
    &&& post.fail_next_alloc == pre.fail_next_alloc
}

/// What the allocator makes of a buffer received from the network: a
/// record over engine-allocated storage, with no caller buffer taken.
pub open spec fn incoming_step(pre: Engine, post: Engine) -> bool {
    &&& post.records_created == pre.records_created + 1
    &&& post.buffers_taken == pre.buffers_taken
    &&& post.records_destroyed == pre.records_destroyed
    &&& post.buffers_freed == pre.buffers_freed
    &&& post.fail_next_alloc == pre.fail_next_alloc
}

impl Engine {
    /// A fresh ledger: nothing allocated, nothing freed, allocation
    /// succeeding.
    pub fn new() -> (e: Engine)
        ensures
            e.records_created == 0,
            e.records_destroyed == 0,
            e.buffers_taken == 0,
            e.buffers_freed == 0,
            !e.fail_next_alloc,
    {
        Engine {
            records_created: 0,
            records_destroyed: 0,
            buffers_taken: 0,
            buffers_freed: 0,
            fail_next_alloc: false,
        }
    }

    /// A record as the engine produces it for a received packet: the
    /// engine's own storage holds the bytes, so no release callback for
    /// caller storage is registered and none will ever fire for it.
    pub fn incoming(&mut self, data: Vec<u8>, flags: u32) -> (h: RawHandle)
        requires
            old(self).records_created < u64::MAX,
        ensures
            incoming_step(*old(self), *final(self)),
            h@ == data@,
            h.spec_flags() == flags,
            !h.spec_callback_registered(),
            h.wf(),
    {
        self.records_created = self.records_created + 1;
        let capacity_tag = vec_capacity(&data);
        RawHandle {
            record: Record { buffer: data, capacity_tag, flags, callback_registered: false },
        }
    }

    /// The engine's destroy routine, run on an unmanaged handle exactly
    /// once by whoever holds it.  Consuming the handle destroys the
    /// record; if a release callback was registered it fires now, giving
    /// the caller's storage back to the allocator, and it can never fire
    /// again because the record is gone.
    pub fn destroy_raw(&mut self, handle: RawHandle)
        requires
            old(self).records_destroyed < u64::MAX,
            old(self).buffers_freed < u64::MAX,
        ensures
            destroy_step(*old(self), *final(self), handle.spec_callback_registered()),
    {
        self.records_destroyed = self.records_destroyed + 1;
        if handle.record.callback_registered {
            self.buffers_freed = self.buffers_freed + 1;
        }
    }
}

/// A packet that can be sent or retrieved on a connection.
///
/// The value manages one record: while it is held, only its release runs
/// the record's destroy routine, and [`Packet::into_inner`] revokes that
/// responsibility by consuming the value.  Both paths take the packet by
/// value, so release responsibility is unambiguous and no second release
/// can be expressed.
pub struct Packet {
    record: Record,
}

/// An unmanaged record handle, fit for handing to the transport engine.
///
/// No release path of [`Packet`] can reach it any more; whoever holds it —
/// normally the engine's internal bookkeeping — must destroy it exactly
/// once via [`Engine::destroy_raw`].
pub struct RawHandle {
    record: Record,
}

impl View for Packet {
    type V = Seq<u8>;

    /// The bytes the record presents.
    closed spec fn view(&self) -> Seq<u8> {
        self.record.buffer@
    }
}

impl View for RawHandle {
    type V = Seq<u8>;

    /// The bytes the record presents.
    closed spec fn view(&self) -> Seq<u8> {
        self.record.buffer@
    }
}

impl Packet {
    /// The record's flag word.
    pub closed spec fn spec_flags(self) -> u32 {
        self.record.flags
    }

    /// Whether a release callback for caller-supplied storage is
    /// registered on the record.
    pub closed spec fn spec_callback_registered(self) -> bool {
        self.record.callback_registered
    }

    /// The record is internally consistent: the stashed capacity really
    /// covers the buffer, as reconstructing the buffer for deallocation
    /// demands.
    pub closed spec fn wf(self) -> bool {
        self@.len() <= self.record.capacity_tag
    }
}

impl RawHandle {
    /// The record's flag word.
    pub closed spec fn spec_flags(self) -> u32 {
        self.record.flags
    }

    /// Whether a release callback for caller-supplied storage is
    /// registered on the record.
    pub closed spec fn spec_callback_registered(self) -> bool {
        self.record.callback_registered
    }

    /// The record is internally consistent: the stashed capacity really
    /// covers the buffer.
    pub closed spec fn wf(self) -> bool {
        self@.len() <= self.record.capacity_tag
    }
}

/// What holds of a packet built by a successful construction from `data`
/// under `mode`: it presents exactly those bytes, its flag word is the
/// mode's encoding plus the caller-supplied-storage bit, a release
/// callback is registered, and the record is internally consistent.
pub open spec fn constructed_from(p: Packet, data: Seq<u8>, mode: PacketMode) -> bool {
    &&& p@ == data
    &&& p.spec_flags() == (mode.spec_wire_flags() | FLAG_NO_ALLOCATE)
    &&& p.spec_callback_registered()
    &&& p.wf()
}

impl Packet {
    /// Creates a new packet with the given transmission mode.
    ///
    /// The data is consumed and moved into the record without copy: the
    /// record is tagged with the buffer's allocated capacity and a release
    /// callback is registered, so the record alone is responsible for
    /// freeing the storage from here on.  If the allocator fails, nothing
    /// was transferred and no callback was registered: the buffer is still
    /// `data`'s to drop normally, and the error says so.
    pub fn new(data: Vec<u8>, mode: PacketMode, engine: &mut Engine) -> (r: Result<
        Packet,
        Error,
    >)
        requires
            old(engine).records_created < u64::MAX,
            old(engine).buffers_taken < u64::MAX,
        ensures
            r is Ok <==> !old(engine).fail_next_alloc,
            r matches Ok(p) ==> constructed_from(p, data@, mode)
                && create_step(*old(engine), *final(engine)),
            r matches Err(e) ==> e == Error::AllocationFailed
                && failed_create_step(*old(engine), *final(engine)),
    {
        if engine.fail_next_alloc {
            engine.fail_next_alloc = false;
            return Err(Error::AllocationFailed);
        }
        let capacity_tag = vec_capacity(&data);
        engine.records_created = engine.records_created + 1;
        engine.buffers_taken = engine.buffers_taken + 1;
        let flags = mode.to_sys_flags() | FLAG_NO_ALLOCATE;
        Ok(Packet { record: Record { buffer: data, capacity_tag, flags, callback_registered: true } })
    }

    /// Takes over a handle already produced by the transport engine, for
    /// example from a receive event.  No allocation happens: this value
    /// now bears the responsibility of releasing the record.
    pub fn from_sys_packet(inner: RawHandle) -> (p: Packet)
        ensures
            p@ == inner@,
            p.spec_flags() == inner.spec_flags(),
            p.spec_callback_registered() == inner.spec_callback_registered(),
            p.wf() == inner.wf(),
    {
        Packet { record: inner.record }
    }

    /// Relinquishes management of the record and returns the raw handle,
    /// for the transport engine to take over.  Does NOT run this
    /// `Packet`'s release path — the engine still needs the buffer — and,
    /// since the packet is consumed, no release path of this value can
    /// ever run.  This is the inverse of [`Packet::from_sys_packet`].
    pub fn into_inner(self) -> (r: RawHandle)
        ensures
            r@ == self@,
            r.spec_flags() == self.spec_flags(),
            r.spec_callback_registered() == self.spec_callback_registered(),
            r.wf() == self.wf(),
    {
        RawHandle { record: self.record }
    }

    /// The record's flag word, as the transport engine will read it.
    pub fn flags(&self) -> (r: u32)
        ensures
            r == self.spec_flags(),
    {
        self.record.flags
    }

    /// Returns a reference to the bytes inside this packet.  The view
    /// lives only as long as the packet value does.
    pub fn data(&self) -> (r: &[u8])
        ensures
            r@ == self@,
    {
        self.record.buffer.as_slice()
    }

    /// Releases the packet: the record's destroy routine runs, and the
    /// registered release callback — present on every successfully
    /// constructed packet — frees the caller's storage exactly once.
    /// This is the managed handle's end of life; the packet is consumed,
    /// so no second release can be expressed.
    pub fn release(self, engine: &mut Engine)
        requires
            old(engine).records_destroyed < u64::MAX,
            old(engine).buffers_freed < u64::MAX,
        ensures
            destroy_step(*old(engine), *final(engine), self.spec_callback_registered()),
    {
        let handle = self.into_inner();
        engine.destroy_raw(handle);
    }
}

/// The release discipline, run for `n` rounds against a fresh engine:
/// each round constructs a packet from its own buffer and releases it
/// exactly once.  The returned ledger is proved balanced for every `n` —
/// each record destroyed, each taken buffer freed exactly once — which
/// is the no-leak, no-double-free property in executable form.
pub fn exercise_release_discipline(n: u32) -> (e: Engine)
    ensures
        e.records_created == n,
        e.records_destroyed == n,
        e.buffers_taken == n,
        e.buffers_freed == n,
{
    let mut engine = Engine::new();
    let mut i: u32 = 0;
    while i < n
        invariant
            i <= n,
            engine.records_created == i,
            engine.records_destroyed == i,
            engine.buffers_taken == i,
            engine.buffers_freed == i,
            !engine.fail_next_alloc,
        decreases n - i,
    {
        let mut data: Vec<u8> = Vec::new();
        data.push((i % 256) as u8);
        match Packet::new(data, PacketMode::ReliableSequenced, &mut engine) {
            Ok(packet) => {
                packet.release(&mut engine);
            },
            Err(_) => {
                // Unreachable: the engine was never told to fail.
            },
        }
        i = i + 1;
    }
    engine
}

/// Law: no two transmission modes share a wire encoding.
pub proof fn lemma_wire_flags_injective(a: PacketMode, b: PacketMode)
    ensures
        a.spec_wire_flags() == b.spec_wire_flags() ==> a == b,
{
    assert((FLAG_UNSEQUENCED | FLAG_UNRELIABLE_FRAGMENT) == 10u32) by (bit_vector);
}

/// Law: the wire encoding is bit-exact.  The RELIABLE bit is set exactly
/// on the reliable mode, the UNSEQUENCED bit exactly on the unsequenced
/// modes, the UNRELIABLE_FRAGMENT bit exactly on the fragmenting mode,
/// and no mode contributes the caller-supplied-storage bit, which is
/// added separately at construction.
pub proof fn lemma_wire_flags_bits(m: PacketMode)
    ensures
        ((m.spec_wire_flags() & FLAG_RELIABLE) != 0) == m.spec_is_reliable(),
        ((m.spec_wire_flags() & FLAG_UNSEQUENCED) != 0) == !m.spec_is_sequenced(),
        ((m.spec_wire_flags() & FLAG_UNRELIABLE_FRAGMENT) != 0) == (
        m is UnreliableUnsequencedUnreliablyFragmented),
        (m.spec_wire_flags() & FLAG_NO_ALLOCATE) == 0,
{
    assert((0u32 & FLAG_RELIABLE) == 0 && (0u32 & FLAG_UNSEQUENCED) == 0 && (0u32
        & FLAG_UNRELIABLE_FRAGMENT) == 0 && (0u32 & FLAG_NO_ALLOCATE) == 0) by (bit_vector);
    assert((FLAG_UNSEQUENCED & FLAG_RELIABLE) == 0 && (FLAG_UNSEQUENCED & FLAG_UNSEQUENCED) != 0
        && (FLAG_UNSEQUENCED & FLAG_UNRELIABLE_FRAGMENT) == 0 && (FLAG_UNSEQUENCED
        & FLAG_NO_ALLOCATE) == 0) by (bit_vector);
    assert(((FLAG_UNSEQUENCED | FLAG_UNRELIABLE_FRAGMENT) & FLAG_RELIABLE) == 0 && ((
    FLAG_UNSEQUENCED | FLAG_UNRELIABLE_FRAGMENT) & FLAG_UNSEQUENCED) != 0 && ((FLAG_UNSEQUENCED
        | FLAG_UNRELIABLE_FRAGMENT) & FLAG_UNRELIABLE_FRAGMENT) != 0 && ((FLAG_UNSEQUENCED
        | FLAG_UNRELIABLE_FRAGMENT) & FLAG_NO_ALLOCATE) == 0) by (bit_vector);
    assert((FLAG_RELIABLE & FLAG_RELIABLE) != 0 && (FLAG_RELIABLE & FLAG_UNSEQUENCED) == 0 && (
    FLAG_RELIABLE & FLAG_UNRELIABLE_FRAGMENT) == 0 && (FLAG_RELIABLE & FLAG_NO_ALLOCATE) == 0)
        by (bit_vector);
}

/// Law: every constructed packet's flag word carries the
/// caller-supplied-storage bit, telling the allocator not to copy.
pub proof fn lemma_constructed_flags_no_allocate(p: Packet, data: Seq<u8>, mode: PacketMode)
    requires
        constructed_from(p, data, mode),
    ensures
        (p.spec_flags() & FLAG_NO_ALLOCATE) != 0,
{
    let w = mode.spec_wire_flags();
    assert(((w | FLAG_NO_ALLOCATE) & FLAG_NO_ALLOCATE) != 0) by (bit_vector);
}

/// Law (round trip): a packet successfully constructed from a buffer
/// presents exactly that buffer's bytes — length and content, for an
/// empty buffer as for any other.  `Packet::new` establishes
/// `constructed_from`, and `Packet::data` returns the packet's view, so
/// the bytes read back are the bytes put in.
pub proof fn lemma_construct_round_trip(p: Packet, data: Seq<u8>, mode: PacketMode)
    requires
        constructed_from(p, data, mode),
    ensures
        p@ == data,
{
}

/// Law (no leak, no double free): one successful construction paired with
/// one release of the constructed packet leaves the ledger's balance of
/// buffers taken against buffers freed unchanged, and of records created
/// against records destroyed.  A balanced engine therefore stays balanced
/// under any number of such pairs, one pair at a time.
pub proof fn lemma_paired_release_keeps_balance(e0: Engine, e1: Engine, e2: Engine)
    requires
        create_step(e0, e1),
        destroy_step(e1, e2, true),
    ensures
        e2.buffers_taken - e2.buffers_freed == e0.buffers_taken - e0.buffers_freed,
        e2.records_created - e2.records_destroyed == e0.records_created - e0.records_destroyed,
{
}

/// Law (transfer then destroy): relinquishing a constructed packet with
/// `Packet::into_inner` and having the engine destroy the raw handle
/// exactly once fires the release callback exactly once.  A second
/// destroy cannot be expressed: the handle is consumed by the first.
pub proof fn lemma_transfer_then_destroy_fires_once(
    p: Packet,
    data: Seq<u8>,
    mode: PacketMode,
    h: RawHandle,
    e1: Engine,
    e2: Engine,
)
    requires
        constructed_from(p, data, mode),
        h.spec_callback_registered() == p.spec_callback_registered(),
        destroy_step(e1, e2, h.spec_callback_registered()),
    ensures
        e2.buffers_freed == e1.buffers_freed + 1,
{
}

} // verus!
