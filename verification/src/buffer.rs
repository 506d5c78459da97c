//! Raw buffer handles, buffer slices, and the coherency-tracked uniform
//! buffer.
//!
//! A [`UniformBuffer`] owns the host copy of a fixed-layout value and a
//! [`GpuSync`] tracker.  The device transfer itself is the caller's: the
//! buffer hands out the bytes to flush and takes back the bytes pulled, and
//! its contracts pin down when each direction is owed and what the host
//! copy is afterwards.

use vstd::prelude::*;

use crate::id::Id;
use crate::sync::{GpuSync, GpuSyncState};

verus! {

/// Handle tag for raw device buffers.
#[derive(Debug)]
pub struct RawBuffer;

pub type BufferId = Id<RawBuffer>;

/// One end of a buffer slice's byte range.
#[derive(Clone, Copy, Debug, PartialEq, Eq, Structural)]
pub enum SliceBound {
    Included(u64),
    Excluded(u64),
    Unbounded,
}

/// A byte range of a raw buffer, recorded by handle and bounds only, so it
/// can be put in a command list before the buffer's live object exists.
#[derive(Clone, Copy, Debug)]
pub struct BufferSlice {
    buffer: BufferId,
    start: SliceBound,
    end: SliceBound,
}

impl View for BufferSlice {
    type V = (u64, SliceBound, SliceBound);

    closed spec fn view(&self) -> (u64, SliceBound, SliceBound) {
        (self.buffer@, self.start, self.end)
    }
}

impl Id<RawBuffer> {
    /// A slice of this buffer between the given bounds.
    pub fn slice(self, start: SliceBound, end: SliceBound) -> (r: BufferSlice)
        ensures
            r@ == (self@, start, end),
    {
        BufferSlice { buffer: self, start, end }
    }
}

impl BufferSlice {
    /// The buffer this slice refers to.
    pub fn buffer(&self) -> (r: BufferId)
        ensures
            r@ == self@.0,
    {
        self.buffer
    }

    /// The slice's lower bound.
    pub fn start(&self) -> (r: SliceBound)
        ensures
            r == self@.1,
    {
        self.start
    }

    /// The slice's upper bound.
    pub fn end(&self) -> (r: SliceBound)
        ensures
            r == self@.2,
    {
        self.end
    }
}

/// Fixed-layout host data that crosses the host/device boundary as bytes.
///
/// An implementation declares its byte width and an encoding such that
/// decoding an encoded value restores it; the uniform buffer's round-trip
/// guarantee rests on exactly that law.
pub trait BufferData: Sized {
    /// The declared byte width of the encoding.
    spec fn spec_size() -> nat;

    /// The encoding of a value.
    spec fn spec_to_bytes(self) -> Seq<u8>;

    /// The decoding of a byte sequence of the declared width.
    spec fn spec_from_bytes(bytes: Seq<u8>) -> Self;

    /// Every encoding has the declared width.
    proof fn lemma_to_bytes_len(self)
        ensures
            self.spec_to_bytes().len() == Self::spec_size(),
    ;

    /// Decoding an encoding restores the encoded value.
    proof fn lemma_from_to_bytes(self)
        ensures
            Self::spec_from_bytes(self.spec_to_bytes()) == self,
    ;

    /// The declared byte width.
    fn size() -> (r: usize)
        ensures
            r == Self::spec_size(),
    ;

    /// Encodes the value.
    fn as_bytes(&self) -> (r: Vec<u8>)
        ensures
            r@ == self.spec_to_bytes(),
    ;

    /// Decodes a byte slice of the declared width.
    fn from_bytes(bytes: &[u8]) -> (r: Self)
        requires
            bytes@.len() == Self::spec_size(),
        ensures
            r == Self::spec_from_bytes(bytes@),
    ;
}

impl BufferData for u32 {
    open spec fn spec_size() -> nat {
        4
    }

    open spec fn spec_to_bytes(self) -> Seq<u8> {
        vstd::bytes::spec_u32_to_le_bytes(self)
    }

    open spec fn spec_from_bytes(bytes: Seq<u8>) -> u32 {
        vstd::bytes::spec_u32_from_le_bytes(bytes)
    }

    proof fn lemma_to_bytes_len(self) {
        vstd::bytes::lemma_auto_spec_u32_to_from_le_bytes();
    }

    proof fn lemma_from_to_bytes(self) {
        vstd::bytes::lemma_auto_spec_u32_to_from_le_bytes();
        assert(vstd::bytes::spec_u32_to_le_bytes(self).len() == 4);
        assert(vstd::bytes::spec_u32_from_le_bytes(vstd::bytes::spec_u32_to_le_bytes(self))
            == self);
    }

    fn size() -> (r: usize) {
        4
    }

    fn as_bytes(&self) -> (r: Vec<u8>) {
        vstd::bytes::u32_to_le_bytes(*self)
    }

    fn from_bytes(bytes: &[u8]) -> (r: u32) {
        vstd::bytes::u32_from_le_bytes(bytes)
    }
}

/// A typed buffer whose host copy is kept coherent with a device buffer
/// through an explicit flush/pull protocol.
///
/// `Some(Cpu)` in the sync state means the host copy is newer and a flush
/// is owed; `Some(Gpu)` means the device copy is newer and a pull is owed;
/// `None` means both agree.  Host reads and writes are rejected while a
/// pull is owed, so a newer device value is never silently lost or
/// overwritten.
pub struct UniformBuffer<T: BufferData> {
    sync: GpuSync,
    raw_buffer: BufferId,
    uniform: T,
}

impl<T: BufferData> UniformBuffer<T> {
    /// The host copy of the value.
    pub closed spec fn host_value(&self) -> T {
        self.uniform
    }

    /// The pending synchronization direction, if any.
    pub closed spec fn sync_state(&self) -> Option<GpuSyncState> {
        self.sync@
    }

    /// The raw handle of the device buffer backing this value.
    pub closed spec fn buffer_id(&self) -> u64 {
        self.raw_buffer@
    }

    /// Wraps a host value backed by the device buffer under `raw_buffer`.
    ///
    /// The caller has just created that device buffer from the value's
    /// bytes, so the two sides start out agreeing.
    pub fn new(raw_buffer: BufferId, uniform: T) -> (r: Self)
        ensures
            r.host_value() == uniform,
            r.sync_state() is None,
            r.buffer_id() == raw_buffer@,
    {
        UniformBuffer { sync: GpuSync::new(None), raw_buffer, uniform }
    }

    /// Records that device-side work has written a newer value, so the next
    /// host access must pull first.
    pub fn mark_gpu_changed(&mut self)
        ensures
            final(self).sync_state() == Some(GpuSyncState::Gpu),
            final(self).host_value() == old(self).host_value(),
            final(self).buffer_id() == old(self).buffer_id(),
    {
        self.sync.mark_gpu();
    }

    /// The pending synchronization direction, if any.
    pub fn state(&self) -> (r: Option<GpuSyncState>)
        ensures
            r == self.sync_state(),
    {
        self.sync.state()
    }

    /// Reads the host copy.
    ///
    /// Rejected while a pull is owed: the device value must be brought over
    /// first.  When the host side is merely dirty, the host copy is
    /// returned as is — no device round trip is implied.
    pub fn read(&self) -> (r: &T)
        requires
            self.sync_state() != Some(GpuSyncState::Gpu),
        ensures
            *r == self.host_value(),
    {
        &self.uniform
    }

    /// Replaces the host copy and marks the host side newer.
    ///
    /// Rejected while a pull is owed: the newer device value has to be
    /// pulled before it may be overwritten.
    pub fn write(&mut self, value: T)
        requires
            old(self).sync_state() != Some(GpuSyncState::Gpu),
        ensures
            final(self).host_value() == value,
            final(self).sync_state() == Some(GpuSyncState::Cpu),
            final(self).buffer_id() == old(self).buffer_id(),
    {
        self.sync.mark_cpu();
        self.uniform = value;
    }

    /// The bytes of the host copy, as the caller writes them to the device
    /// when a flush is owed.
    pub fn bytes(&self) -> (r: Vec<u8>)
        ensures
            r@ == self.host_value().spec_to_bytes(),
    {
        self.uniform.as_bytes()
    }

    /// The raw handle of the backing device buffer.
    pub fn raw_buffer(&self) -> (r: BufferId)
        ensures
            r@ == self.buffer_id(),
    {
        self.raw_buffer
    }

    /// Records that the owed host-to-device flush has completed: the caller
    /// has written [`UniformBuffer::bytes`] into the device buffer.
    pub fn complete_flush(&mut self)
        requires
            old(self).sync_state() == Some(GpuSyncState::Cpu),
        ensures
            final(self).sync_state() is None,
            final(self).host_value() == old(self).host_value(),
            final(self).buffer_id() == old(self).buffer_id(),
    {
        self.sync.mark_unchanged();
    }

    /// Records that the owed device-to-host pull has completed, installing
    /// the bytes read back from the device as the host copy.
    pub fn complete_pull(&mut self, device_bytes: &[u8])
        requires
            old(self).sync_state() == Some(GpuSyncState::Gpu),
            device_bytes@.len() == T::spec_size(),
        ensures
            final(self).host_value() == T::spec_from_bytes(device_bytes@),
            final(self).sync_state() is None,
            final(self).buffer_id() == old(self).buffer_id(),
    {
        self.uniform = T::from_bytes(device_bytes);
        self.sync.mark_unchanged();
    }
}

/// Round trip: flushing a host value to the device and pulling the very
/// bytes back restores the value, so an unchanged device copy never alters
/// host data.
pub proof fn lemma_flush_pull_round_trip<T: BufferData>(value: T)
    ensures
        T::spec_from_bytes(value.spec_to_bytes()) == value,
{
    value.lemma_from_to_bytes();
}

/// After a host write the tracker owes a flush and nothing else: a device
/// pull straight after a host write is rejected until the flush has run, so
/// the freshly written host data cannot be lost.
pub proof fn lemma_host_write_excludes_pull<T: BufferData>(buffer: UniformBuffer<T>)
    requires
        buffer.sync_state() == Some(GpuSyncState::Cpu),
    ensures
        buffer.sync_state() != Some(GpuSyncState::Gpu),
        buffer.sync_state() is Some,
{
}

} // verus!
