//! A local fabric domain, and the memory registered with it.

use std::sync::Arc;

use vstd::prelude::*;

use crate::config::FabricConfig;
use crate::dma::advertisement::Advertisement;
#[allow(unused_imports)]
use crate::dma::advertisement::AdvertisementView;
use crate::dma::buffer::DmaBuffer;
#[allow(unused_imports)]
use crate::dma::buffer::DmaBufferView;
use crate::dma::error::DmaError;
#[allow(unused_imports)]
use crate::dma::error::DmaErrorView;
#[allow(unused_imports)]
use crate::resp::texts;

verus! {

/// What an endpoint reports of itself once it is open.
#[derive(Debug, Clone, PartialEq, Eq)]
pub struct LocalEndpoint {
    /// Its local fabric address.
    pub address: Vec<u8>,
    /// Whether it addresses registrations by virtual address rather than by offset
    /// into the region.
    pub uses_virtual_addressing: bool,
}

/// What the fabric reports of memory that it has pinned.
#[derive(Debug, Clone, Copy, PartialEq, Eq)]
pub struct Registration {
    /// The key a peer presents to access the region.
    pub remote_key: u64,
    /// Where the memory starts.
    pub virtual_address: u64,
}

/// What a registration lets a peer do with memory.
#[derive(Debug, Clone, Copy, PartialEq, Eq, Structural)]
pub enum Access {
    /// Read it and write it.
    Remote,
    /// Read it, and no more.
    Source,
}

impl Access {
    /// Whether the memory may be written.
    pub open spec fn writes(self) -> bool {
        self == Access::Remote
    }
}

/// A local domain. Every [`DmaBuffer`] holds a clone, keeping
/// the domain alive for as long as any registration.
#[derive(Debug)]
pub struct DmaFabric {
    inner: Arc<FabricInner>,
}

#[derive(Debug)]
struct FabricInner {
    /// Whether a transfer needs this side to poll.
    polled: bool,
    address: Vec<u8>,
    uses_virtual_addressing: bool,
}

/// The mathematical form of a [`DmaFabric`].
pub struct DmaFabricView {
    pub polled: bool,
    pub address: Seq<u8>,
    pub virtual_addressing: bool,
}

impl View for DmaFabric {
    type V = DmaFabricView;

    closed spec fn view(&self) -> DmaFabricView {
        DmaFabricView {
            polled: self.inner.polled,
            address: self.inner.address@,
            virtual_addressing: self.inner.uses_virtual_addressing,
        }
    }
}

/// Calls `Arc::clone`, which gives another handle on the same value.
#[verifier::external_body]
fn share<T>(shared: &Arc<T>) -> (handle: Arc<T>)
    ensures
        handle == *shared,
{
    Arc::clone(shared)
}

impl Clone for DmaFabric {
    fn clone(&self) -> (copy: Self)
        ensures
            copy@ == self@,
    {
        DmaFabric { inner: share(&self.inner) }
    }
}

impl DmaFabricView {
    /// Where a region registered with this fabric is found. A provider that addresses
    /// by offset, like tcp, starts every region at 0.
    pub open spec fn advertises(self, registration: Registration) -> AdvertisementView {
        AdvertisementView {
            address: self.address,
            remote_key: registration.remote_key,
            remote_address: if self.virtual_addressing {
                registration.virtual_address
            } else {
                0
            },
        }
    }

    /// What registering `memory` comes to, given what pinning it came to. Only memory
    /// pinned for writing is writable.
    pub open spec fn registered(
        self,
        memory: Seq<u8>,
        access: Access,
        registration: Registration,
    ) -> DmaBufferView {
        DmaBufferView {
            advertisement: self.advertises(registration),
            length: memory.len(),
            memory,
            writable: access.writes(),
            fabric: self,
        }
    }
}

/// Why memory of no length cannot be registered.
pub open spec fn nothing_to_register() -> DmaErrorView {
    DmaErrorView::Configuration("cannot register 0 bytes"@)
}

/// What opening a fabric comes to, given what opening its endpoint came to: the
/// endpoint's own failure, or a fabric that polls where the provider needs it to.
pub open spec fn opened_fabric(
    polls: bool,
    endpoint: Result<LocalEndpoint, DmaError>,
    fabric: Result<DmaFabric, DmaError>,
) -> bool {
    match endpoint {
        Ok(endpoint) => fabric is Ok && fabric->Ok_0@ == (DmaFabricView {
            polled: polls,
            address: endpoint.address@,
            virtual_addressing: endpoint.uses_virtual_addressing,
        }),
        Err(error) => fabric == Err::<DmaFabric, DmaError>(error),
    }
}

/// What registering memory comes to, given what pinning it came to.
pub open spec fn registered_buffer(
    fabric: DmaFabricView,
    memory: Seq<u8>,
    access: Access,
    pinned: Result<Registration, DmaError>,
    buffer: Result<DmaBuffer, DmaError>,
) -> bool {
    match pinned {
        Ok(registration) => buffer is Ok && buffer->Ok_0@ == fabric.registered(
            memory,
            access,
            registration,
        ),
        Err(error) => buffer == Err::<DmaBuffer, DmaError>(error),
    }
}

impl DmaFabric {
    /// Open an endpoint for `config`: `endpoint` asks the fabric for one.
    pub fn open(
        config: &FabricConfig,
        endpoint: impl FnOnce(&FabricConfig) -> Result<LocalEndpoint, DmaError>,
    ) -> (fabric: Result<Self, DmaError>)
        requires
            endpoint.requires((config,)),
        ensures
            exists|opened: Result<LocalEndpoint, DmaError>| #[trigger]
                endpoint.ensures((config,), opened) && opened_fabric(
                    config@.provider.polls(),
                    opened,
                    fabric,
                ),
    {
        let opened = endpoint(config);
        let ghost reported = opened;
        assert(endpoint.ensures((config,), reported));
        match opened {
            Ok(local) => Ok(
                DmaFabric {
                    inner: Arc::new(
                        FabricInner {
                            polled: config.provider().needs_manual_progress(),
                            address: local.address,
                            uses_virtual_addressing: local.uses_virtual_addressing,
                        },
                    ),
                },
            ),
            Err(error) => Err(error),
        }
    }

    /// Register host memory for the server to access remotely: `pin` asks the fabric
    /// for [`Access::Remote`], and is not asked for memory of no length.
    ///
    /// The memory is a vector, which keeps its bytes in place as it moves. Memory of
    /// another kind would have to be trusted to hand out the same bytes every time.
    ///
    /// Registration is expensive and pins pages, so reuse a region and advertise
    /// windows of it with [`DmaBuffer::slice`] rather than registering per transfer.
    pub fn register(
        &self,
        memory: Vec<u8>,
        pin: impl FnOnce(&[u8], Access) -> Result<Registration, DmaError>,
    ) -> (buffer: Result<DmaBuffer, DmaError>)
        requires
            memory@.len() > 0 ==> forall|bytes: &[u8]|
                bytes@ == memory@ ==> pin.requires((bytes, Access::Remote)),
        ensures
            if memory@.len() == 0 {
                buffer is Err && buffer->Err_0@ == nothing_to_register()
            } else {
                exists|bytes: &[u8], pinned: Result<Registration, DmaError>| #[trigger]
                    pin.ensures((bytes, Access::Remote), pinned) && bytes@ == memory@
                        && registered_buffer(self@, memory@, Access::Remote, pinned, buffer) && (
                    pinned matches Ok(registration) ==> {
                        &&& buffer is Ok
                        &&& buffer->Ok_0@.advertisement.remote_key == registration.remote_key
                        &&& buffer->Ok_0@.advertisement.remote_address
                            == if self@.virtual_addressing {
                            registration.virtual_address
                        } else {
                            0
                        }
                        &&& buffer->Ok_0@.advertisement.address == self@.address
                    })
            },
            buffer matches Ok(buffer) ==> buffer@.well_formed(),
    {
        if memory.len() == 0 {
            return Err(DmaError::Configuration("cannot register 0 bytes".to_string()));
        }
        let pinned = pin(memory.as_slice(), Access::Remote);
        match pinned {
            Ok(registration) => {
                let advertisement = self.advertisement(&registration);
                Ok(DmaBuffer::host(advertisement, memory, self.clone()))
            },
            Err(error) => Err(error),
        }
    }

    /// Register shared, read-only memory as a source for the `DMA.SET` direction:
    /// `pin` asks the fabric for [`Access::Source`], and is not asked for memory of no
    /// length.
    ///
    /// Takes no ownership, so one allocation can be registered on every fabric. A
    /// server can read any window advertised from it but never write: no other access
    /// is asked for, and the buffer has no writable mapping. As for [`Self::register`],
    /// the memory is a vector, here a shared one.
    pub fn register_shared(
        &self,
        memory: Arc<Vec<u8>>,
        pin: impl FnOnce(&[u8], Access) -> Result<Registration, DmaError>,
    ) -> (buffer: Result<DmaBuffer, DmaError>)
        requires
            memory@.len() > 0 ==> forall|bytes: &[u8]|
                bytes@ == memory@ ==> pin.requires((bytes, Access::Source)),
        ensures
            if memory@.len() == 0 {
                buffer is Err && buffer->Err_0@ == nothing_to_register()
            } else {
                exists|bytes: &[u8], pinned: Result<Registration, DmaError>| #[trigger]
                    pin.ensures((bytes, Access::Source), pinned) && bytes@ == memory@
                        && registered_buffer(self@, memory@, Access::Source, pinned, buffer) && (
                    pinned matches Ok(registration) ==> {
                        &&& buffer is Ok
                        &&& buffer->Ok_0@.advertisement.remote_key == registration.remote_key
                        &&& buffer->Ok_0@.advertisement.remote_address
                            == if self@.virtual_addressing {
                            registration.virtual_address
                        } else {
                            0
                        }
                        &&& buffer->Ok_0@.advertisement.address == self@.address
                    })
            },
            buffer matches Ok(buffer) ==> buffer@.well_formed(),
    {
        if memory.len() == 0 {
            return Err(DmaError::Configuration("cannot register 0 bytes".to_string()));
        }
        let pinned = pin(memory.as_slice(), Access::Source);
        match pinned {
            Ok(registration) => {
                let advertisement = self.advertisement(&registration);
                Ok(DmaBuffer::shared(advertisement, memory, self.clone()))
            },
            Err(error) => Err(error),
        }
    }

    /// Insert a server address into the address vector; `insert` asks the fabric to.
    /// efa-direct requires the target to hold the initiator's address before any
    /// transfer.
    pub fn insert_peer(
        &self,
        address: &[u8],
        insert: &impl Fn(&[u8]) -> Result<(), DmaError>,
    ) -> (inserted: Result<(), DmaError>)
        requires
            insert.requires((address,)),
        ensures
            insert.ensures((address,), inserted),
    {
        insert(address)
    }

    /// Drive progress until the returned guard drops; `drive` starts doing so.
    /// Hold it across a transfer's round trip so the server's access is serviced.
    /// `None` when the provider needs no polling, which is the efa-direct case.
    #[must_use]
    pub fn drive_progress<G>(&self, drive: impl FnOnce() -> G) -> (guard: Option<G>)
        requires
            self@.polled ==> drive.requires(()),
        ensures
            match guard {
                Some(guard) => self@.polled && drive.ensures((), guard),
                None => !self@.polled,
            },
    {
        if self.inner.polled {
            Some(drive())
        } else {
            None
        }
    }

    /// This endpoint's local fabric address.
    pub fn local_address(&self) -> (address: &[u8])
        ensures
            address@ == self@.address,
    {
        self.inner.address.as_slice()
    }

    /// Whether this provider addresses registrations by virtual address rather than by
    /// offset into the region.
    pub fn uses_virtual_addressing(&self) -> (virtually: bool)
        ensures
            virtually == self@.virtual_addressing,
    {
        self.inner.uses_virtual_addressing
    }

    fn advertisement(&self, registration: &Registration) -> (advertisement: Advertisement)
        ensures
            advertisement@ == self@.advertises(*registration),
    {
        let address = self.inner.address.clone();
        assert(address@ =~= self.inner.address@);
        Advertisement {
            address,
            remote_key: registration.remote_key,
            remote_address: if self.inner.uses_virtual_addressing {
                registration.virtual_address
            } else {
                // for offset-addressed providers like tcp
                0
            },
        }
    }
}

/// The distinct items of a sequence, each where it first occurs.
pub open spec fn distinct<T>(items: Seq<T>) -> Seq<T>
    decreases items.len(),
{
    if items.len() == 0 {
        Seq::empty()
    } else {
        let earlier = distinct(items.drop_last());
        if items.drop_last().contains(items.last()) {
            earlier
        } else {
            earlier.push(items.last())
        }
    }
}

/// Deduplicating drops no name, invents none and keeps none twice.
pub proof fn distinct_keeps_each_once<T>(items: Seq<T>)
    ensures
        distinct(items).no_duplicates(),
        forall|item: T| distinct(items).contains(item) <==> items.contains(item),
    decreases items.len(),
{
    if items.len() > 0 {
        let earlier = items.drop_last();
        let last = items.last();
        distinct_keeps_each_once(earlier);
        assert forall|item: T| distinct(items).contains(item) <==> items.contains(item) by {
            if items.contains(item) && item != last {
                let at = choose|i: int| 0 <= i < items.len() && items[i] == item;
                assert(earlier[at] == item);
            }
            if earlier.contains(item) {
                let at = choose|i: int| 0 <= i < earlier.len() && earlier[i] == item;
                assert(items[at] == item);
            }
            if distinct(earlier).contains(item) {
                let at = choose|i: int|
                    0 <= i < distinct(earlier).len() && distinct(earlier)[i] == item;
                assert(distinct(items)[at] == item);
            }
            if distinct(items).contains(item) && item != last {
                let at = choose|i: int|
                    0 <= i < distinct(items).len() && distinct(items)[i] == item;
                assert(distinct(earlier)[at] == item);
            }
            assert(items[items.len() - 1] == last);
            if !earlier.contains(last) {
                assert(distinct(items)[distinct(items).len() - 1] == last);
            }
        }
        assert(forall|i: int|
            0 <= i < distinct(earlier).len() ==> distinct(earlier).contains(
                #[trigger] distinct(earlier)[i],
            ));
    }
}

/// What discovering domains comes to, given what listing them came to: the failure to
/// list them, or the names without repeats, in the order they were listed.
pub open spec fn discovered(
    listed: Result<Vec<String>, DmaError>,
    domains: Result<Vec<String>, DmaError>,
) -> bool {
    match listed {
        Ok(listed) => domains is Ok && texts(domains->Ok_0@) == distinct(texts(listed@)),
        Err(error) => domains == Err::<Vec<String>, DmaError>(error),
    }
}

/// Every fabric domain the configured provider offers, deduplicated, in the order
/// libfabric returns them: `list` asks it for the name of each. Pass one back via
/// [`FabricConfig::with_interface`].
pub fn discover_domains(
    config: &FabricConfig,
    list: impl FnOnce(&FabricConfig) -> Result<Vec<String>, DmaError>,
) -> (domains: Result<Vec<String>, DmaError>)
    requires
        list.requires((config,)),
    ensures
        exists|listed: Result<Vec<String>, DmaError>| #[trigger]
            list.ensures((config,), listed) && discovered(listed, domains),
{
    let listed = list(config);
    let ghost reported = listed;
    assert(list.ensures((config,), reported));
    let names = match listed {
        Ok(names) => names,
        Err(error) => {
            return Err(error);
        },
    };
    let mut domains: Vec<String> = Vec::new();
    let mut at: usize = 0;
    while at < names.len()
        invariant
            at <= names@.len(),
            texts(domains@) == distinct(texts(names@).take(at as int)),
        decreases names@.len() - at,
    {
        let ghost seen = texts(names@).take(at as int);
        let ghost next = texts(names@).take(at + 1);
        assert(next.drop_last() =~= seen);
        assert(next.last() == names@[at as int]@);
        proof {
            distinct_keeps_each_once(seen);
        }
        if !holds(&domains, &names[at]) {
            let ghost before = domains@;
            domains.push(names[at].clone());
            assert(texts(domains@) =~= texts(before).push(names@[at as int]@));
        }
        at = at + 1;
    }
    assert(texts(names@).take(at as int) =~= texts(names@));
    Ok(domains)
}

fn holds(names: &Vec<String>, name: &String) -> (found: bool)
    ensures
        found == texts(names@).contains(name@),
{
    let mut at: usize = 0;
    while at < names.len()
        invariant
            at <= names@.len(),
            forall|i: int| 0 <= i < at ==> (#[trigger] texts(names@)[i]) != name@,
        decreases names@.len() - at,
    {
        if names[at] == *name {
            assert(texts(names@)[at as int] == name@);
            return true;
        }
        at = at + 1;
    }
    false
}

/// An open fabric is what its endpoint reported: the same address, the same way of
/// addressing, and it polls just when the provider needs it to. Where the endpoint could
/// not be opened, neither is the fabric, for the same reason.
pub proof fn a_fabric_is_what_its_endpoint_reported(
    polls: bool,
    endpoint: Result<LocalEndpoint, DmaError>,
    fabric: Result<DmaFabric, DmaError>,
)
    requires
        opened_fabric(polls, endpoint, fabric),
    ensures
        fabric is Ok <==> endpoint is Ok,
        endpoint matches Ok(endpoint) ==> {
            &&& fabric->Ok_0@.address == endpoint.address@
            &&& fabric->Ok_0@.virtual_addressing == endpoint.uses_virtual_addressing
            &&& fabric->Ok_0@.polled == polls
        },
        endpoint matches Err(error) ==> fabric->Err_0 == error,
{
}

/// A registered buffer is advertised with the key the fabric gave its registration, at
/// the fabric's address, and at the memory's own address where the fabric addresses so
/// and at 0 where it does not. It is the memory that was registered, all of it.
pub proof fn a_buffer_is_advertised_as_it_was_registered(
    fabric: DmaFabricView,
    memory: Seq<u8>,
    access: Access,
    registration: Registration,
    buffer: Result<DmaBuffer, DmaError>,
)
    requires
        registered_buffer(fabric, memory, access, Ok(registration), buffer),
    ensures
        buffer is Ok,
        buffer->Ok_0@.advertisement.remote_key == registration.remote_key,
        fabric.virtual_addressing ==> buffer->Ok_0@.advertisement.remote_address
            == registration.virtual_address,
        !fabric.virtual_addressing ==> buffer->Ok_0@.advertisement.remote_address == 0,
        buffer->Ok_0@.advertisement.address == fabric.address,
        buffer->Ok_0@.memory == memory,
        buffer->Ok_0@.length == memory.len(),
        buffer->Ok_0@.writable <==> access == Access::Remote,
        buffer->Ok_0@.fabric == fabric,
{
}

/// Memory that could not be pinned is not registered, for the same reason.
pub proof fn a_failed_pin_is_reported_as_it_came(
    fabric: DmaFabricView,
    memory: Seq<u8>,
    access: Access,
    error: DmaError,
    buffer: Result<DmaBuffer, DmaError>,
)
    requires
        registered_buffer(fabric, memory, access, Err(error), buffer),
    ensures
        buffer is Err,
        buffer->Err_0 == error,
{
}

/// Deduplicating keeps the order: what comes of the first names stands first in what
/// comes of all of them, so a name stands where it first occurred.
pub proof fn distinct_keeps_the_order<T>(items: Seq<T>, more: Seq<T>)
    ensures
        distinct(items + more).len() >= distinct(items).len(),
        distinct(items + more).take(distinct(items).len() as int) == distinct(items),
    decreases more.len(),
{
    let kept = distinct(items).len() as int;
    if more.len() == 0 {
        assert(items + more =~= items);
        assert(distinct(items).take(kept) =~= distinct(items));
    } else {
        distinct_keeps_the_order(items, more.drop_last());
        assert((items + more).drop_last() =~= items + more.drop_last());
        assert(distinct(items + more).take(kept) =~= distinct(items + more.drop_last()).take(kept));
    }
}

/// Discovery gives the names that were listed, each once, and a failure to list them as
/// it came.
pub proof fn discovery_gives_the_listed_names(
    listed: Result<Vec<String>, DmaError>,
    domains: Result<Vec<String>, DmaError>,
)
    requires
        discovered(listed, domains),
    ensures
        domains is Ok <==> listed is Ok,
        listed matches Err(error) ==> domains->Err_0 == error,
        listed matches Ok(listed) ==> {
            &&& texts(domains->Ok_0@).no_duplicates()
            &&& forall|name: Seq<char>|
                texts(domains->Ok_0@).contains(name) <==> texts(listed@).contains(name)
        },
{
    if let Ok(listed) = listed {
        distinct_keeps_each_once(texts(listed@));
    }
}

} // verus!
