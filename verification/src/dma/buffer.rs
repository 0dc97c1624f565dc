//! Registered memory and the windows a transfer advertises.

use std::sync::Arc;

use vstd::prelude::*;

use crate::dma::advertisement::Advertisement;
#[allow(unused_imports)]
use crate::dma::advertisement::AdvertisementView;
use crate::dma::fabric::DmaFabric;
#[allow(unused_imports)]
use crate::dma::fabric::{Access, DmaFabricView, Registration};

verus! {

/// A window of a registration: where it is and how big it is.
#[derive(Debug, PartialEq, Eq)]
pub struct RegionWindow {
    advertisement: Advertisement,
    length: usize,
}

/// The mathematical form of a [`RegionWindow`].
pub struct RegionWindowView {
    pub advertisement: AdvertisementView,
    pub length: nat,
}

impl View for RegionWindow {
    type V = RegionWindowView;

    closed spec fn view(&self) -> RegionWindowView {
        RegionWindowView { advertisement: self.advertisement@, length: self.length as nat }
    }
}

impl Clone for RegionWindow {
    fn clone(&self) -> (copy: Self)
        ensures
            copy@ == self@,
    {
        RegionWindow { advertisement: self.advertisement.clone(), length: self.length }
    }
}

impl RegionWindow {
    /// Where the window starts.
    pub fn advertisement(&self) -> (advertisement: &Advertisement)
        ensures
            advertisement@ == self@.advertisement,
    {
        &self.advertisement
    }

    /// How many bytes of the region it covers.
    pub fn length(&self) -> (length: usize)
        ensures
            length == self@.length,
    {
        self.length
    }
}

/// What backs a buffer's bytes.
enum Backing {
    /// Host memory owned here and writable, so a transfer can land in it.
    Owned(Vec<u8>),
    /// Host memory shared with the caller and read-only, so it can back a buffer on
    /// several endpoints at once.
    Shared(Arc<Vec<u8>>),
}

impl Backing {
    spec fn bytes(self) -> Seq<u8> {
        match self {
            Backing::Owned(memory) => memory@,
            Backing::Shared(memory) => memory@,
        }
    }

    fn describe(&self) -> (name: &'static str)
        ensures
            name@ == if self is Owned {
                "owned"@
            } else {
                "shared"@
            },
    {
        match self {
            Backing::Owned(_) => "owned",
            Backing::Shared(_) => "shared",
        }
    }
}

/// Memory registered with a [`DmaFabric`] for the server to access remotely.
///
/// Owned host memory is reachable through [`Self::as_host_mut`]. Shared memory is
/// read-only and a source only: the server may read windows of it for `DMA.SET`, never
/// write to it.
pub struct DmaBuffer {
    advertisement: Advertisement,
    length: usize,
    backing: Backing,
    /// Keeps the domain alive for as long as the registration.
    fabric: DmaFabric,
}

/// The mathematical form of a [`DmaBuffer`].
pub struct DmaBufferView {
    pub advertisement: AdvertisementView,
    pub length: nat,
    pub memory: Seq<u8>,
    pub writable: bool,
    pub fabric: DmaFabricView,
}

impl View for DmaBuffer {
    type V = DmaBufferView;

    closed spec fn view(&self) -> DmaBufferView {
        DmaBufferView {
            advertisement: self.advertisement@,
            length: self.length as nat,
            memory: self.backing.bytes(),
            writable: self.backing is Owned,
            fabric: self.fabric@,
        }
    }
}

impl DmaBufferView {
    /// What holds of every buffer a fabric registered: it has memory, all of it is
    /// registered, it is advertised at the fabric's own address, and a region that is
    /// addressed by offset starts at 0.
    pub open spec fn well_formed(self) -> bool {
        &&& self.length > 0
        &&& self.memory.len() == self.length
        &&& self.advertisement.address == self.fabric.address
        &&& !self.fabric.virtual_addressing ==> self.advertisement.remote_address == 0
    }

    /// The window `[at, at + length)` of this registration, or `None` if that runs
    /// past its end or past the last address there is.
    pub open spec fn window(self, at: nat, length: nat) -> Option<RegionWindowView> {
        if at + length <= self.length && self.advertisement.remote_address + at <= u64::MAX {
            Some(
                RegionWindowView {
                    advertisement: AdvertisementView {
                        remote_address: (self.advertisement.remote_address + at) as u64,
                        ..self.advertisement
                    },
                    length,
                },
            )
        } else {
            None
        }
    }

    /// Whether `value` can be staged: the memory is writable and it fits.
    pub open spec fn takes(self, value: Seq<u8>) -> bool {
        self.writable && value.len() <= self.memory.len()
    }

    /// The buffer with `value` at its front.
    pub open spec fn with_front(self, value: Seq<u8>) -> DmaBufferView {
        DmaBufferView { memory: value + self.memory.skip(value.len() as int), ..self }
    }
}

fn overwrite_front(memory: &mut Vec<u8>, value: &[u8])
    requires
        value@.len() <= old(memory)@.len(),
    ensures
        final(memory)@ == value@ + old(memory)@.skip(value@.len() as int),
{
    let ghost before = memory@;
    let mut at: usize = 0;
    while at < value.len()
        invariant
            at <= value@.len() <= memory@.len(),
            memory@.len() == before.len(),
            memory@ =~= value@.take(at as int) + before.skip(at as int),
        decreases value.len() - at,
    {
        memory.set(at, value[at]);
        at = at + 1;
    }
    assert(memory@ =~= value@ + before.skip(value@.len() as int));
}

impl DmaBuffer {
    pub(crate) fn host(advertisement: Advertisement, memory: Vec<u8>, fabric: DmaFabric) -> (buffer:
        Self)
        ensures
            buffer@ == (DmaBufferView {
                advertisement: advertisement@,
                length: memory@.len(),
                memory: memory@,
                writable: true,
                fabric: fabric@,
            }),
    {
        let length: usize = memory.len();
        DmaBuffer { advertisement, length, backing: Backing::Owned(memory), fabric }
    }

    /// A read-only source registered on this fabric. The `Arc` keeps the storage for as
    /// long as this registration lives, which is what lets one allocation back a buffer
    /// on every endpoint at once.
    pub(crate) fn shared(
        advertisement: Advertisement,
        memory: Arc<Vec<u8>>,
        fabric: DmaFabric,
    ) -> (buffer: Self)
        ensures
            buffer@ == (DmaBufferView {
                advertisement: advertisement@,
                length: memory@.len(),
                memory: memory@,
                writable: false,
                fabric: fabric@,
            }),
    {
        let length: usize = memory.len();
        DmaBuffer { advertisement, length, backing: Backing::Shared(memory), fabric }
    }

    /// Bytes registered, capping what one transfer can move through this buffer.
    pub fn capacity(&self) -> (capacity: usize)
        ensures
            capacity == self@.length,
    {
        self.length
    }

    /// Where this buffer lives, for a transfer command.
    pub fn advertisement(&self) -> (advertisement: &Advertisement)
        ensures
            advertisement@ == self@.advertisement,
    {
        &self.advertisement
    }

    /// The advertisement for `[at, at + length)` of this registration, or `None` if
    /// that runs past the end.
    ///
    /// One registration serves many transfers by advertising a different window per
    /// request. The remote key covers the whole region, so only the address moves - and
    /// it moves the same way under both addressing modes: where the advertisement
    /// carries the buffer's virtual address this is `base + at`, and where it carries 0
    /// for the start of the region it is `at`.
    ///
    /// This is a pure bounds check. It does not record that a window is outstanding, so
    /// two callers can be handed overlapping windows and both will validate.
    pub fn slice(&self, at: usize, length: usize) -> (window: Option<RegionWindow>)
        ensures
            match window {
                Some(window) => self@.window(at as nat, length as nat) == Some(window@),
                None => self@.window(at as nat, length as nat) is None,
            },
    {
        let end: usize = match at.checked_add(length) {
            Some(end) => end,
            None => {
                return None;
            },
        };
        if self.length < end {
            return None;
        }
        let remote_address: u64 = match self.advertisement.remote_address.checked_add(at as u64) {
            Some(remote_address) => remote_address,
            None => {
                return None;
            },
        };
        let mut advertisement = self.advertisement.clone();
        advertisement.remote_address = remote_address;
        Some(RegionWindow { advertisement, length })
    }

    /// The fabric this buffer is registered with.
    pub fn fabric(&self) -> (fabric: &DmaFabric)
        ensures
            fabric@ == self@.fabric,
    {
        &self.fabric
    }

    /// The host mapping, or `None` for a shared source, which is not writable through
    /// this handle.
    pub fn as_host_mut(&mut self) -> (memory: Option<&mut [u8]>)
        ensures
            match memory {
                Some(memory) => {
                    &&& old(self)@.writable
                    &&& memory@ == old(self)@.memory
                    &&& final(self)@ == (DmaBufferView { memory: final(memory)@, ..old(self)@ })
                },
                None => !old(self)@.writable && final(self)@ == old(self)@,
            },
    {
        match &mut self.backing {
            Backing::Owned(memory) => Some(memory.as_mut_slice()),
            Backing::Shared(_) => None,
        }
    }

    /// The host mapping for reading what a transfer landed, or `None` when there is
    /// none to read.
    pub fn as_host(&mut self) -> (memory: Option<&[u8]>)
        ensures
            final(self)@ == old(self)@,
            match memory {
                Some(memory) => old(self)@.writable && memory@ == old(self)@.memory,
                None => !old(self)@.writable,
            },
    {
        match &self.backing {
            Backing::Owned(memory) => Some(memory.as_slice()),
            Backing::Shared(_) => None,
        }
    }

    /// Copy `value` into the front of the buffer, returning the bytes staged, or `None`
    /// without staging when there is no writable host mapping or it will not fit.
    pub fn copy_from(&mut self, value: &[u8]) -> (staged: Option<usize>)
        ensures
            old(self)@.well_formed() ==> final(self)@.well_formed(),
            if old(self)@.takes(value@) {
                staged == Some(value@.len() as usize) && final(self)@ == old(self)@.with_front(
                    value@,
                )
            } else {
                staged is None && final(self)@ == old(self)@
            },
    {
        match &mut self.backing {
            Backing::Owned(memory) => {
                if memory.len() < value.len() {
                    return None;
                }
                overwrite_front(memory, value);
                Some(value.len())
            },
            Backing::Shared(_) => None,
        }
    }

    /// What backs the bytes, in a word.
    pub fn backing(&self) -> (name: &'static str)
        ensures
            name@ == if self@.writable {
                "owned"@
            } else {
                "shared"@
            },
    {
        self.backing.describe()
    }
}

/// Every window of a registration lies inside it, starts as far from its start as was
/// asked, and carries its address and key. A window that would run past the end is
/// refused, and no other is, where the region ends before the last address.
pub proof fn windows_stay_inside(buffer: DmaBufferView, at: nat, length: nat)
    ensures
        buffer.window(at, length) is Some <==> at + length <= buffer.length
            && buffer.advertisement.remote_address + at <= u64::MAX,
        at + length > buffer.length ==> buffer.window(at, length) is None,
        at + length <= buffer.length && buffer.advertisement.remote_address + buffer.length
            <= u64::MAX ==> buffer.window(at, length) is Some,
        buffer.window(at, length) matches Some(window) ==> {
            &&& window.length == length
            &&& window.advertisement.address == buffer.advertisement.address
            &&& window.advertisement.remote_key == buffer.advertisement.remote_key
            &&& buffer.advertisement.remote_address <= window.advertisement.remote_address
            &&& window.advertisement.remote_address - buffer.advertisement.remote_address == at
            &&& window.advertisement.remote_address + window.length
                <= buffer.advertisement.remote_address + buffer.length
        },
{
}

/// Windows may overlap: whether one is handed out does not depend on any other, so
/// every window inside a window that was handed out is handed out too.
pub proof fn windows_are_independent(
    buffer: DmaBufferView,
    at: nat,
    length: nat,
    inner_at: nat,
    inner_length: nat,
)
    requires
        buffer.advertisement.remote_address + buffer.length <= u64::MAX,
        buffer.window(at, length) is Some,
        at <= inner_at,
        inner_at + inner_length <= at + length,
    ensures
        buffer.window(inner_at, inner_length) is Some,
{
}

/// A shared source is never written to: staging is refused whatever the value, even
/// one of no length.
pub proof fn shared_memory_is_read_only(buffer: DmaBufferView, value: Seq<u8>)
    requires
        !buffer.writable,
    ensures
        !buffer.takes(value),
{
}

/// Whoever may write agrees: memory is writable on this side just when the server was
/// let write it, so a source is written by neither.
pub proof fn a_source_is_written_by_neither_side(
    fabric: DmaFabricView,
    memory: Seq<u8>,
    access: Access,
    registration: Registration,
    value: Seq<u8>,
)
    ensures
        fabric.registered(memory, access, registration).writable <==> access.writes(),
        access == Access::Source ==> !fabric.registered(memory, access, registration).takes(value),
{
}

/// Staging keeps a buffer well formed, touches nothing behind the value, and leaves the
/// value to be read at the front.
pub proof fn staging_writes_the_front_alone(buffer: DmaBufferView, value: Seq<u8>)
    requires
        buffer.well_formed(),
        buffer.takes(value),
    ensures
        buffer.with_front(value).well_formed(),
        buffer.with_front(value).memory.take(value.len() as int) == value,
        buffer.with_front(value).memory.skip(value.len() as int) == buffer.memory.skip(
            value.len() as int,
        ),
{
    let after = buffer.with_front(value).memory;
    assert(after.take(value.len() as int) =~= value);
    assert(after.skip(value.len() as int) =~= buffer.memory.skip(value.len() as int));
}

/// Writing through the host mapping keeps a buffer well formed: a mapping has the
/// length it has.
pub proof fn writing_through_the_mapping_is_harmless(buffer: DmaBufferView, written: Seq<u8>)
    requires
        buffer.well_formed(),
        written.len() == buffer.memory.len(),
    ensures
        (DmaBufferView { memory: written, ..buffer }).well_formed(),
{
}

/// Whatever memory of some length is registered, and however it was pinned, the buffer
/// is well formed.
pub proof fn registered_buffers_are_well_formed(
    fabric: DmaFabricView,
    memory: Seq<u8>,
    access: Access,
    registration: Registration,
)
    requires
        memory.len() > 0,
    ensures
        fabric.registered(memory, access, registration).well_formed(),
{
}

/// A value is staged whenever the memory is writable and holds it, up to its last byte,
/// and never otherwise.
pub proof fn whatever_fits_is_staged(buffer: DmaBufferView, value: Seq<u8>)
    ensures
        buffer.takes(value) <==> buffer.writable && value.len() <= buffer.memory.len(),
{
}

/// Staging leaves everything about a buffer but its bytes as it was.
pub proof fn staging_changes_bytes_alone(buffer: DmaBufferView, value: Seq<u8>, at: int)
    requires
        buffer.takes(value),
        0 <= at < buffer.memory.len(),
    ensures
        buffer.with_front(value).memory.len() == buffer.memory.len(),
        buffer.with_front(value).memory[at] == if at < value.len() {
            value[at]
        } else {
            buffer.memory[at]
        },
        buffer.with_front(value).advertisement == buffer.advertisement,
        buffer.with_front(value).length == buffer.length,
        buffer.with_front(value).writable == buffer.writable,
        buffer.with_front(value).fabric == buffer.fabric,
{
}

} // verus!
