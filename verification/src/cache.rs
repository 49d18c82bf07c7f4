//! The bounded store of firmware records, one per device, which forgets the
//! least recently used record when it is full.

use crate::error::FirmwareError;
use crate::record::{share, FirmwareInfo, RecordView};
use crate::text::same_text;
use std::sync::Arc;
use vstd::prelude::*;

verus! {

/// One cached record with the device it belongs to.
pub struct EntryView {
    pub device: Seq<char>,
    pub record: RecordView,
}

/// Some entry belongs to the device.
pub open spec fn holds(entries: Seq<EntryView>, device: Seq<char>) -> bool {
    exists|i: int| 0 <= i < entries.len() && #[trigger] entries[i].device == device
}

/// Where the entry of a device stands, if it has one.
pub open spec fn index_of(entries: Seq<EntryView>, device: Seq<char>) -> int {
    choose|i: int| 0 <= i < entries.len() && #[trigger] entries[i].device == device
}

/// No device has two entries.
pub open spec fn distinct(entries: Seq<EntryView>) -> bool {
    forall|i: int, j: int|
        0 <= i < entries.len() && 0 <= j < entries.len() && i != j ==> #[trigger] entries[i].device
            != #[trigger] entries[j].device
}

/// The record that is cached for a device.
pub open spec fn lookup(entries: Seq<EntryView>, device: Seq<char>) -> Option<RecordView> {
    if holds(entries, device) {
        Some(entries[index_of(entries, device)].record)
    } else {
        None
    }
}

/// The entries after a device was read: its entry, if there is one, becomes
/// the most recently used, which is the last.
pub open spec fn promoted(entries: Seq<EntryView>, device: Seq<char>) -> Seq<EntryView> {
    if holds(entries, device) {
        let i = index_of(entries, device);
        entries.remove(i).push(entries[i])
    } else {
        entries
    }
}

/// The entries after a record was stored for a device. A record of the same
/// device is replaced. Otherwise, where the store is full, the least recently
/// used entry, which is the first, makes room. The new entry is the most
/// recently used.
pub open spec fn stored(
    entries: Seq<EntryView>,
    capacity: nat,
    device: Seq<char>,
    record: RecordView,
) -> Seq<EntryView> {
    let entry = EntryView { device, record };
    if holds(entries, device) {
        entries.remove(index_of(entries, device)).push(entry)
    } else if entries.len() >= capacity && entries.len() > 0 {
        entries.remove(0).push(entry)
    } else {
        entries.push(entry)
    }
}

/// What a cache must always be: not over its capacity, which is positive,
/// and with one entry for a device at most.
pub open spec fn bounded(entries: Seq<EntryView>, capacity: nat) -> bool {
    &&& capacity > 0
    &&& entries.len() <= capacity
    &&& distinct(entries)
}

/// Reading a device keeps a cache within its bounds, and the device's
/// record is then the last.
pub proof fn lemma_promoted_bounded(entries: Seq<EntryView>, capacity: nat, device: Seq<char>)
    requires
        bounded(entries, capacity),
    ensures
        bounded(promoted(entries, device), capacity),
        promoted(entries, device).len() == entries.len(),
        lookup(promoted(entries, device), device) == lookup(entries, device),
        holds(entries, device) ==> promoted(entries, device).last().device == device,
{
    if holds(entries, device) {
        let i = index_of(entries, device);
        let after = promoted(entries, device);
        let last = after.len() - 1;
        assert(after[last] == entries[i]);
        assert forall|k: int| 0 <= k < last implies #[trigger] after[k] == entries[if k < i {
            k
        } else {
            k + 1
        }] by {}
        assert(distinct(after)) by {
            assert forall|a: int, b: int|
                0 <= a < after.len() && 0 <= b < after.len() && a != b implies #[trigger] after[a].device
                != #[trigger] after[b].device by {
                let sa = if a == last { i } else if a < i { a } else { a + 1 };
                let sb = if b == last { i } else if b < i { b } else { b + 1 };
                assert(after[a] == entries[sa]);
                assert(after[b] == entries[sb]);
                assert(sa != sb);
            }
        }
        assert(after[last].device == device);
        let j = index_of(after, device);
        assert(0 <= j < after.len() && after[j].device == device);
        assert(j == last);
    }
}

/// Storing a record keeps a cache within its bounds, and the record is then
/// the one cached for its device, as the last entry.
pub proof fn lemma_stored_bounded(
    entries: Seq<EntryView>,
    capacity: nat,
    device: Seq<char>,
    record: RecordView,
)
    requires
        bounded(entries, capacity),
    ensures
        bounded(stored(entries, capacity, device, record), capacity),
        lookup(stored(entries, capacity, device, record), device) == Some(record),
        stored(entries, capacity, device, record).last() == (EntryView { device, record }),
{
    let after = stored(entries, capacity, device, record);
    let last = after.len() - 1;
    let gone: int = if holds(entries, device) {
        index_of(entries, device)
    } else if entries.len() >= capacity {
        0
    } else {
        entries.len() as int
    };
    assert(after[last] == (EntryView { device, record }));
    assert forall|k: int| 0 <= k < last implies #[trigger] after[k] == entries[if k < gone {
        k
    } else {
        k + 1
    }] by {}
    assert forall|k: int| 0 <= k < last implies (#[trigger] after[k]).device != device by {
        let sk = if k < gone { k } else { k + 1 };
        assert(after[k] == entries[sk]);
        if holds(entries, device) {
            assert(entries[gone].device == device);
            assert(sk != gone);
        }
    }
    assert(distinct(after)) by {
        assert forall|a: int, b: int|
            0 <= a < after.len() && 0 <= b < after.len() && a != b implies #[trigger] after[a].device
            != #[trigger] after[b].device by {
            if a != last && b != last {
                let sa = if a < gone { a } else { a + 1 };
                let sb = if b < gone { b } else { b + 1 };
                assert(after[a] == entries[sa]);
                assert(after[b] == entries[sb]);
            }
        }
    }
    assert(after[last].device == device);
    let j = index_of(after, device);
    assert(0 <= j < after.len() && after[j].device == device);
    assert(j == last);
}

/// Storing a record for one device leaves the record of another device as
/// it was, unless that other record is the one that makes room: the least
/// recently used one of a full cache.
pub proof fn lemma_stored_keeps_others(
    entries: Seq<EntryView>,
    capacity: nat,
    device: Seq<char>,
    record: RecordView,
    other: Seq<char>,
)
    requires
        bounded(entries, capacity),
        other != device,
        holds(entries, device) || entries.len() < capacity || entries[0].device != other,
    ensures
        lookup(stored(entries, capacity, device, record), other) == lookup(entries, other),
{
    let after = stored(entries, capacity, device, record);
    lemma_stored_bounded(entries, capacity, device, record);
    let last = after.len() - 1;
    let gone: int = if holds(entries, device) {
        index_of(entries, device)
    } else if entries.len() >= capacity {
        0
    } else {
        entries.len() as int
    };
    assert forall|k: int| 0 <= k < last implies #[trigger] after[k] == entries[if k < gone {
        k
    } else {
        k + 1
    }] by {}
    if holds(entries, other) {
        let i = index_of(entries, other);
        assert(i != gone);
        let k = if i < gone { i } else { i - 1 };
        assert(after[k] == entries[i]);
        assert(after[k].device == other);
        let j = index_of(after, other);
        assert(0 <= j < after.len() && after[j].device == other);
        assert(j == k);
    } else if holds(after, other) {
        let j = index_of(after, other);
        assert(j != last);
        let sj = if j < gone { j } else { j + 1 };
        assert(after[j] == entries[sj]);
        assert(entries[sj].device == other);
    }
}

/// A record that was just read outlives the next record that is stored, in
/// any cache that holds two records or more: reading renews.
pub proof fn lemma_read_record_survives(
    entries: Seq<EntryView>,
    capacity: nat,
    read: Seq<char>,
    device: Seq<char>,
    record: RecordView,
)
    requires
        bounded(entries, capacity),
        holds(entries, read),
        read != device,
        capacity >= 2,
    ensures
        lookup(stored(promoted(entries, read), capacity, device, record), read) == lookup(
            entries,
            read,
        ),
{
    let renewed = promoted(entries, read);
    lemma_promoted_bounded(entries, capacity, read);
    if !holds(renewed, device) && renewed.len() >= capacity {
        assert(renewed.len() >= 2);
        assert(renewed[renewed.len() - 1].device == read);
        assert(renewed[0].device != renewed[renewed.len() - 1].device);
    }
    lemma_stored_keeps_others(renewed, capacity, device, record, read);
}

struct Slot {
    device: String,
    record: Arc<FirmwareInfo>,
}

impl Slot {
    spec fn entry(self) -> EntryView {
        EntryView { device: self.device@, record: self.record@ }
    }
}

/// A cache of firmware records by device, least recently used first.
pub struct FirmwareCache {
    capacity: usize,
    slots: Vec<Slot>,
}

impl View for FirmwareCache {
    type V = Seq<EntryView>;

    closed spec fn view(&self) -> Seq<EntryView> {
        Seq::new(self.slots@.len(), |i: int| self.slots@[i].entry())
    }
}

impl FirmwareCache {
    #[verifier::type_invariant]
    spec fn within_bounds(&self) -> bool {
        bounded(self@, self.capacity as nat)
    }

    /// The number of records that the cache can hold.
    pub closed spec fn limit(&self) -> nat {
        self.capacity as nat
    }

    /// An empty cache for `capacity` records. A cache that could hold
    /// nothing is refused.
    pub fn new(capacity: usize) -> (r: Result<FirmwareCache, FirmwareError>)
        ensures
            match r {
                Ok(c) => capacity > 0 && c@ == Seq::<EntryView>::empty() && c.limit() == capacity,
                Err(e) => capacity == 0 && e == FirmwareError::ZeroCapacity,
            },
    {
        if capacity == 0 {
            Err(FirmwareError::ZeroCapacity)
        } else {
            let c = FirmwareCache { capacity, slots: Vec::new() };
            assert(c@ =~= Seq::<EntryView>::empty());
            Ok(c)
        }
    }

    /// The number of records that the cache can hold.
    pub fn capacity(&self) -> (n: usize)
        ensures
            n == self.limit(),
            n > 0,
    {
        proof {
            use_type_invariant(self);
        }
        self.capacity
    }

    /// The number of records in the cache.
    pub fn size(&self) -> (n: usize)
        ensures
            n == self@.len(),
            n <= self.limit(),
            bounded(self@, self.limit()),
    {
        proof {
            use_type_invariant(self);
        }
        self.slots.len()
    }

    fn position(&self, device: &str) -> (r: Option<usize>)
        ensures
            bounded(self@, self.limit()),
            match r {
                Some(i) => holds(self@, device@) && i == index_of(self@, device@) && i
                    < self.slots@.len(),
                None => !holds(self@, device@),
            },
    {
        proof {
            use_type_invariant(self);
        }
        let mut i: usize = 0;
        while i < self.slots.len()
            invariant
                i <= self.slots@.len(),
                self@.len() == self.slots@.len(),
                bounded(self@, self.limit()),
                forall|k: int| 0 <= k < i ==> (#[trigger] self@[k]).device != device@,
            decreases self.slots@.len() - i,
        {
            if same_text(self.slots[i].device.as_str(), device) {
                proof {
                    let k = i as int;
                    assert(self@[k].device == device@);
                    let j = index_of(self@, device@);
                    assert(0 <= j < self@.len() && self@[j].device == device@);
                    assert(j == k);
                }
                return Some(i);
            }
            i += 1;
        }
        None
    }

    /// The record of a device, without touching the order of use.
    pub fn peek(&self, device: &str) -> (r: Option<Arc<FirmwareInfo>>)
        ensures
            match r {
                Some(record) => lookup(self@, device@) == Some(record@),
                None => lookup(self@, device@) is None,
            },
    {
        match self.position(device) {
            Some(i) => Some(share(&self.slots[i].record)),
            None => None,
        }
    }

    /// The record of a device, which becomes the most recently used.
    pub fn get(&mut self, device: &str) -> (r: Option<Arc<FirmwareInfo>>)
        ensures
            match r {
                Some(record) => lookup(old(self)@, device@) == Some(record@),
                None => lookup(old(self)@, device@) is None,
            },
            final(self)@ == promoted(old(self)@, device@),
            final(self).limit() == old(self).limit(),
    {
        match self.position(device) {
            Some(i) => {
                let ghost before = self@;
                let mut slots: Vec<Slot> = Vec::new();
                core::mem::swap(&mut self.slots, &mut slots);
                let slot = slots.remove(i);
                let record = share(&slot.record);
                slots.push(slot);
                proof {
                    let after = Seq::new(slots@.len(), |k: int| slots@[k].entry());
                    assert(after =~= before.remove(i as int).push(before[i as int]));
                    lemma_promoted_bounded(before, self.capacity as nat, device@);
                }
                self.slots = slots;
                Some(record)
            },
            None => None,
        }
    }

    /// Stores the record of a device and makes it the most recently used. A
    /// record that the device already has is replaced; where the cache is
    /// full, the least recently used record is forgotten.
    pub fn put(&mut self, device: String, record: Arc<FirmwareInfo>)
        ensures
            final(self)@ == stored(old(self)@, old(self).limit(), device@, record@),
            final(self).limit() == old(self).limit(),
            lookup(final(self)@, device@) == Some(record@),
    {
        let ghost before = self@;
        let ghost entry = EntryView { device: device@, record: record@ };
        let found = self.position(device.as_str());
        let mut slots: Vec<Slot> = Vec::new();
        core::mem::swap(&mut self.slots, &mut slots);
        match found {
            Some(i) => {
                slots.remove(i);
            },
            None => {
                if slots.len() >= self.capacity {
                    slots.remove(0);
                }
            },
        }
        slots.push(Slot { device, record });
        proof {
            let after = Seq::new(slots@.len(), |k: int| slots@[k].entry());
            assert(after =~= stored(before, self.capacity as nat, entry.device, entry.record));
            lemma_stored_bounded(before, self.capacity as nat, entry.device, entry.record);
        }
        self.slots = slots;
    }
}

} // verus!
