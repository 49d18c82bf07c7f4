//! The shared state of the service, a cache and the set of fetches under
//! way, and the decisions that are taken on it: serve from the cache, fetch,
//! or wait for the request that is fetching already.
//!
//! Every operation here is one short critical section. None of them waits
//! for the registry; the caller does, between two of them.

use crate::cache::{bounded, lookup, promoted, stored, EntryView, FirmwareCache};
use crate::error::FirmwareError;
use crate::flight::InFlight;
use crate::record::{consistent, record_of, share, FirmwareInfo, RecordView};
use crate::text::same_text;
use crate::version::{precedes_eq, SemVer, SemVerView};
use std::sync::Arc;
use vstd::prelude::*;
use vstd::string::StringExecFns;

verus! {

/// The value of the shared state.
pub struct ManagerView {
    /// The cached records, least recently used first.
    pub entries: Seq<EntryView>,
    /// How many records the cache can hold.
    pub capacity: nat,
    /// The devices with a fetch under way.
    pub in_flight: Set<Seq<char>>,
}

/// What to do for a request once the registry has named the latest release.
pub enum DecisionView {
    /// The cached record is current: serve it.
    Hit(RecordView),
    /// Nothing current is cached and nobody fetches: the request fetches.
    Fetch,
    /// Nothing current is cached and another request fetches: wait for it.
    Wait,
}

/// A cached record is current when the registry's latest version is not
/// above it and the registry reports the same manifest digest. The digest
/// catches an artifact that was rebuilt under the same tag.
pub open spec fn is_current(cached: RecordView, version: SemVerView, digest: Seq<char>) -> bool {
    precedes_eq(version, cached.version) && digest == cached.manifest_digest
}

/// The decision for a device whose latest release has the given version and
/// manifest digest.
pub open spec fn decision(
    m: ManagerView,
    device: Seq<char>,
    version: SemVerView,
    digest: Seq<char>,
) -> DecisionView {
    match lookup(m.entries, device) {
        Some(cached) if is_current(cached, version, digest) => DecisionView::Hit(cached),
        _ => if m.in_flight.contains(device) {
            DecisionView::Wait
        } else {
            DecisionView::Fetch
        },
    }
}

/// The state after the decision: the device's record was read, so it is now
/// the most recently used, and unless it was served a fetch is under way.
pub open spec fn decided(
    m: ManagerView,
    device: Seq<char>,
    version: SemVerView,
    digest: Seq<char>,
) -> ManagerView {
    ManagerView {
        entries: promoted(m.entries, device),
        capacity: m.capacity,
        in_flight: if decision(m, device, version, digest) is Hit {
            m.in_flight
        } else {
            m.in_flight.insert(device)
        },
    }
}

/// The state after a fetch ended well: the record is cached and the device
/// is released.
pub open spec fn installed(m: ManagerView, device: Seq<char>, record: RecordView) -> ManagerView {
    ManagerView {
        entries: stored(m.entries, m.capacity, device, record),
        capacity: m.capacity,
        in_flight: m.in_flight.remove(device),
    }
}

/// The state after a fetch ended without a record: the cache is as it was
/// and the device is released.
pub open spec fn abandoned(m: ManagerView, device: Seq<char>) -> ManagerView {
    ManagerView { entries: m.entries, capacity: m.capacity, in_flight: m.in_flight.remove(device) }
}

/// What is always true of the shared state: the cache is within its bounds.
pub open spec fn sound(m: ManagerView) -> bool {
    bounded(m.entries, m.capacity)
}

/// What to do for a request once the registry has named the latest release.
pub enum Decision {
    /// The cached record is current: serve it.
    Hit(Arc<FirmwareInfo>),
    /// The request owns the fetch and must release the device when it ends.
    Fetch,
    /// Another request fetches: wait for it, then look into the cache.
    Wait,
}

impl View for Decision {
    type V = DecisionView;

    open spec fn view(&self) -> DecisionView {
        match self {
            Decision::Hit(record) => DecisionView::Hit(record@),
            Decision::Fetch => DecisionView::Fetch,
            Decision::Wait => DecisionView::Wait,
        }
    }
}

/// The state that all requests share: the cache and the fetches under way.
pub struct FirmwareManager {
    cache: FirmwareCache,
    in_flight: InFlight,
}

impl View for FirmwareManager {
    type V = ManagerView;

    closed spec fn view(&self) -> ManagerView {
        ManagerView {
            entries: self.cache@,
            capacity: self.cache.limit(),
            in_flight: self.in_flight@,
        }
    }
}

impl FirmwareManager {
    /// The state of a service that has served nothing yet, with room for
    /// `cache_size` records. A size of zero is refused.
    pub fn new(cache_size: usize) -> (r: Result<FirmwareManager, FirmwareError>)
        ensures
            match r {
                Ok(m) => cache_size > 0 && m@ == (ManagerView {
                    entries: Seq::empty(),
                    capacity: cache_size as nat,
                    in_flight: Set::empty(),
                }),
                Err(e) => cache_size == 0 && e == FirmwareError::ZeroCapacity,
            },
    {
        match FirmwareCache::new(cache_size) {
            Ok(cache) => Ok(FirmwareManager { cache, in_flight: InFlight::new() }),
            Err(e) => Err(e),
        }
    }

    /// The number of cached records, which never exceeds the capacity.
    pub fn size(&self) -> (n: usize)
        ensures
            n == self@.entries.len(),
            n <= self@.capacity,
            sound(self@),
    {
        self.cache.size()
    }

    /// The number of records that the cache can hold.
    pub fn capacity(&self) -> (n: usize)
        ensures
            n == self@.capacity,
            n > 0,
    {
        self.cache.capacity()
    }

    /// Whether a fetch for the device is under way.
    pub fn is_in_flight(&self, device: &str) -> (r: bool)
        ensures
            r == self@.in_flight.contains(device@),
    {
        self.in_flight.contains(device)
    }

    /// The cached record of a device, whether it is current or not. The
    /// order of use stays as it is.
    pub fn peek(&self, device: &str) -> (r: Option<Arc<FirmwareInfo>>)
        ensures
            match r {
                Some(record) => lookup(self@.entries, device@) == Some(record@) && consistent(
                    record@,
                ),
                None => lookup(self@.entries, device@) is None,
            },
    {
        match self.cache.peek(device) {
            Some(record) => {
                let info: &FirmwareInfo = &record;
                proof {
                    use_type_invariant(info);
                }
                Some(record)
            },
            None => None,
        }
    }

    /// Decides what a request for `device` does, given the version and the
    /// manifest digest of the latest release in the registry. The cached
    /// record is served if it is current. Otherwise the request fetches,
    /// unless a fetch for the device is under way already: then it waits.
    pub fn decide(&mut self, device: &str, version: &SemVer, digest: &str) -> (d: Decision)
        ensures
            d@ == decision(old(self)@, device@, version@, digest@),
            final(self)@ == decided(old(self)@, device@, version@, digest@),
            d matches Decision::Hit(record) ==> consistent(record@),
    {
        let cached = self.cache.get(device);
        if let Some(record) = cached {
            if version.at_most(record.version()) && same_text(digest, record.manifest_digest()) {
                let info: &FirmwareInfo = &record;
                proof {
                    use_type_invariant(info);
                }
                return Decision::Hit(record);
            }
        }
        if self.in_flight.claim(device) {
            Decision::Fetch
        } else {
            Decision::Wait
        }
    }

    /// Ends a fetch that brought a payload: makes its record, caches it and
    /// releases the device. The record carries the digest that came with the
    /// payload.
    pub fn install(&mut self, device: &str, version: SemVer, data: Vec<u8>, digest: String) -> (r:
        Arc<FirmwareInfo>)
        ensures
            r@ == record_of(version@, data@, digest@),
            consistent(r@),
            final(self)@ == installed(old(self)@, device@, r@),
            lookup(final(self)@.entries, device@) == Some(r@),
    {
        let record = Arc::new(FirmwareInfo::new(version, data, digest));
        let kept = share(&record);
        self.cache.put(String::from_str(device), kept);
        self.in_flight.release(device);
        record
    }

    /// Ends a fetch that brought nothing: releases the device and leaves the
    /// cache as it was. Returns whether a fetch was under way.
    pub fn abandon(&mut self, device: &str) -> (held: bool)
        ensures
            held == old(self)@.in_flight.contains(device@),
            final(self)@ == abandoned(old(self)@, device@),
    {
        self.in_flight.release(device)
    }

    /// What a request that waited for another one's fetch gets: the cached
    /// record, or an error where there is none. It does not fetch on its own.
    pub fn recheck(&self, device: &str) -> (r: Result<Arc<FirmwareInfo>, FirmwareError>)
        ensures
            match r {
                Ok(record) => lookup(self@.entries, device@) == Some(record@) && consistent(
                    record@,
                ),
                Err(e) => lookup(self@.entries, device@) is None && e
                    == FirmwareError::Unavailable,
            },
    {
        match self.peek(device) {
            Some(record) => Ok(record),
            None => Err(FirmwareError::Unavailable),
        }
    }
}

} // verus!
