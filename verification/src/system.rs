//! What holds of the service as a whole: a shared state and any number of
//! requests that take their steps in any order.

use crate::cache::{lemma_promoted_bounded, lemma_stored_bounded, lookup};
use crate::manager::{decision, is_current, sound, ManagerView};
use crate::record::{consistent, record_of};
use crate::request::{
    after_digest, after_fetch, next, ActionView, EventView, PhaseView, RequestView,
};
use crate::resolver::CandidateView;
use vstd::prelude::*;

verus! {

/// The service at one moment: the shared state and the requests that are
/// being served or have been.
pub struct SystemView {
    pub manager: ManagerView,
    pub requests: Seq<RequestView>,
}

/// The service after a new request has come in.
pub open spec fn joined(s: SystemView, device: Seq<char>) -> SystemView {
    SystemView {
        manager: s.manager,
        requests: s.requests.push(RequestView { device, phase: PhaseView::Start }),
    }
}

/// The service after request `i` has taken a step on event `e`.
pub open spec fn stepped(s: SystemView, i: int, e: EventView) -> SystemView {
    let step = next(s.manager, s.requests[i], e);
    SystemView {
        manager: step.manager,
        requests: s.requests.update(
            i,
            RequestView { device: s.requests[i].device, phase: step.phase },
        ),
    }
}

/// Request `i` is fetching for the device.
pub open spec fn fetches(s: SystemView, i: int, device: Seq<char>) -> bool {
    0 <= i < s.requests.len() && s.requests[i].phase is Fetching && s.requests[i].device == device
}

/// Single flight: no two requests fetch for one device, and a device is
/// marked as being fetched exactly while some request fetches for it.
pub open spec fn single_flight(s: SystemView) -> bool {
    &&& forall|i: int, j: int, d: Seq<char>|
        #[trigger] fetches(s, i, d) && #[trigger] fetches(s, j, d) ==> i == j
    &&& forall|d: Seq<char>| #[trigger]
        s.manager.in_flight.contains(d) <==> exists|i: int| fetches(s, i, d)
}

/// A step of a request keeps the cache within its bounds and its capacity as
/// it is: the number of cached records never exceeds the capacity.
pub proof fn lemma_step_keeps_bounds(m: ManagerView, r: RequestView, e: EventView)
    requires
        sound(m),
    ensures
        sound(next(m, r, e).manager),
        next(m, r, e).manager.capacity == m.capacity,
        next(m, r, e).manager.entries.len() <= m.capacity,
{
    match r.phase {
        PhaseView::FetchingDigest(c) => {
            if let EventView::Digest(Some(digest)) = e {
                lemma_promoted_bounded(m.entries, m.capacity, r.device);
            }
        },
        PhaseView::Fetching(c) => {
            if let EventView::Blob(Some((data, digest))) = e {
                lemma_stored_bounded(
                    m.entries,
                    m.capacity,
                    r.device,
                    record_of(c.version, data, digest),
                );
            }
        },
        _ => {},
    }
}

/// The request that fetches releases its device with its next step,
/// whatever the event is: the step ends the request, reports the release,
/// and leaves the device unmarked.
pub proof fn lemma_owner_releases(m: ManagerView, r: RequestView, e: EventView)
    requires
        r.phase is Fetching,
    ensures
        next(m, r, e).phase is Done,
        !next(m, r, e).manager.in_flight.contains(r.device),
        next(m, r, e).action matches ActionView::Return { released, .. } && released,
{
}

/// A device is claimed only by the step that starts its fetch, and that step
/// is taken only while the device is unmarked.
pub proof fn lemma_fetch_needs_free_device(m: ManagerView, r: RequestView, e: EventView)
    ensures
        next(m, r, e).action is FetchBlob ==> !m.in_flight.contains(r.device) && next(
            m,
            r,
            e,
        ).phase is Fetching && next(m, r, e).manager.in_flight.contains(r.device),
        next(m, r, e).phase is Fetching ==> next(m, r, e).action is FetchBlob,
        !(r.phase is Fetching) && !(next(m, r, e).phase is Fetching) ==> next(
            m,
            r,
            e,
        ).manager.in_flight == m.in_flight,
{
    match r.phase {
        PhaseView::FetchingDigest(c) => {
            if let EventView::Digest(Some(digest)) = e {
                if decision(m, r.device, c.version, digest) is Wait {
                    assert(m.in_flight.insert(r.device) =~= m.in_flight);
                }
            }
        },
        _ => {},
    }
}

/// A step that ends in an error leaves every cached record in its place: a
/// failure does not spoil the cache.
pub proof fn lemma_failure_keeps_cache(m: ManagerView, r: RequestView, e: EventView)
    requires
        next(m, r, e).action matches ActionView::Return { outcome: Err(_), .. },
    ensures
        next(m, r, e).manager.entries == m.entries,
        next(m, r, e).phase is Done,
{
}

/// A new request leaves single flight intact.
pub proof fn lemma_join_keeps_single_flight(s: SystemView, device: Seq<char>)
    requires
        single_flight(s),
    ensures
        single_flight(joined(s, device)),
{
    let t = joined(s, device);
    assert forall|i: int, d: Seq<char>| fetches(t, i, d) <==> fetches(s, i, d) by {
        if 0 <= i < s.requests.len() {
            assert(t.requests[i] == s.requests[i]);
        }
    }
    assert forall|d: Seq<char>| #[trigger]
        t.manager.in_flight.contains(d) <==> exists|i: int| fetches(t, i, d) by {
        if s.manager.in_flight.contains(d) {
            let i = choose|i: int| fetches(s, i, d);
            assert(fetches(t, i, d));
        }
        if exists|i: int| fetches(t, i, d) {
            let i = choose|i: int| fetches(t, i, d);
            assert(fetches(s, i, d));
        }
    }
}

/// Any step of any request leaves single flight intact.
pub proof fn lemma_step_keeps_single_flight(s: SystemView, i: int, e: EventView)
    requires
        single_flight(s),
        0 <= i < s.requests.len(),
    ensures
        single_flight(stepped(s, i, e)),
{
    let r = s.requests[i];
    let t = stepped(s, i, e);
    let step = next(s.manager, r, e);
    lemma_fetch_needs_free_device(s.manager, r, e);
    assert forall|j: int, d: Seq<char>| j != i implies (fetches(t, j, d) <==> fetches(s, j, d)) by {
        if 0 <= j < s.requests.len() {
            assert(t.requests[j] == s.requests[j]);
        }
    }
    assert(t.requests[i].device == r.device);
    assert(t.requests[i].phase == step.phase);
    if r.phase is Fetching {
        lemma_owner_releases(s.manager, r, e);
        assert(fetches(s, i, r.device));
        assert(t.manager.in_flight =~= s.manager.in_flight.remove(r.device));
        assert forall|d: Seq<char>| !fetches(t, i, d) by {}
        assert forall|d: Seq<char>| #[trigger]
            t.manager.in_flight.contains(d) <==> exists|j: int| fetches(t, j, d) by {
            if t.manager.in_flight.contains(d) {
                let j = choose|j: int| fetches(s, j, d);
                assert(j != i);
                assert(fetches(t, j, d));
            }
            if exists|j: int| fetches(t, j, d) {
                let j = choose|j: int| fetches(t, j, d);
                assert(fetches(s, j, d));
                assert(s.manager.in_flight.contains(d));
                if d == r.device {
                    assert(fetches(s, i, d));
                }
            }
        }
        assert forall|a: int, b: int, d: Seq<char>| #[trigger]
            fetches(t, a, d) && #[trigger] fetches(t, b, d) implies a == b by {
            assert(fetches(s, a, d) && fetches(s, b, d));
        }
    } else if step.phase is Fetching {
        assert(!s.manager.in_flight.contains(r.device));
        assert(t.manager.in_flight =~= s.manager.in_flight.insert(r.device));
        assert(fetches(t, i, r.device));
        assert forall|d: Seq<char>| !fetches(s, i, d) by {}
        assert forall|d: Seq<char>| #[trigger]
            t.manager.in_flight.contains(d) <==> exists|j: int| fetches(t, j, d) by {
            if t.manager.in_flight.contains(d) && d != r.device {
                let j = choose|j: int| fetches(s, j, d);
                assert(fetches(t, j, d));
            }
            if exists|j: int| fetches(t, j, d) {
                let j = choose|j: int| fetches(t, j, d);
                if j != i {
                    assert(fetches(s, j, d));
                }
            }
        }
        assert forall|a: int, b: int, d: Seq<char>| #[trigger]
            fetches(t, a, d) && #[trigger] fetches(t, b, d) implies a == b by {
            if a != i {
                assert(fetches(s, a, d));
                assert(s.manager.in_flight.contains(d));
            }
            if b != i {
                assert(fetches(s, b, d));
                assert(s.manager.in_flight.contains(d));
            }
        }
    } else {
        assert(t.manager.in_flight == s.manager.in_flight);
        assert forall|d: Seq<char>| !fetches(s, i, d) && !fetches(t, i, d) by {}
        assert forall|d: Seq<char>| #[trigger]
            t.manager.in_flight.contains(d) <==> exists|j: int| fetches(t, j, d) by {
            if t.manager.in_flight.contains(d) {
                let j = choose|j: int| fetches(s, j, d);
                assert(fetches(t, j, d));
            }
            if exists|j: int| fetches(t, j, d) {
                let j = choose|j: int| fetches(t, j, d);
                assert(fetches(s, j, d));
            }
        }
        assert forall|a: int, b: int, d: Seq<char>| #[trigger]
            fetches(t, a, d) && #[trigger] fetches(t, b, d) implies a == b by {
            assert(fetches(s, a, d) && fetches(s, b, d));
        }
    }
}

/// While one request fetches for a device, no step of another request asks
/// for that device's payload: the payload is fetched once.
pub proof fn lemma_one_fetch_at_a_time(s: SystemView, owner: int, i: int, e: EventView)
    requires
        single_flight(s),
        fetches(s, owner, s.requests[i].device),
        0 <= i < s.requests.len(),
        i != owner,
    ensures
        !(next(s.manager, s.requests[i], e).action is FetchBlob),
{
    lemma_fetch_needs_free_device(s.manager, s.requests[i], e);
    assert(s.manager.in_flight.contains(s.requests[i].device));
}

/// Once no request is fetching, no device is marked as being fetched: a
/// claim does not outlive the request that made it.
pub proof fn lemma_no_claim_left_behind(s: SystemView)
    requires
        single_flight(s),
        forall|i: int| 0 <= i < s.requests.len() ==> !((#[trigger] s.requests[i]).phase is Fetching),
    ensures
        s.manager.in_flight =~= Set::empty(),
{
    assert forall|d: Seq<char>| !s.manager.in_flight.contains(d) by {
        if s.manager.in_flight.contains(d) {
            let i = choose|i: int| fetches(s, i, d);
            assert(s.requests[i].phase is Fetching);
        }
    }
}

/// A rebuilt artifact is fetched again. Where the cache holds a record for
/// the device, the registry reports another manifest digest for the latest
/// release, and no fetch for the device is under way, the request does not
/// serve the cached record but asks for the payload; and the step that takes
/// the payload hands out and caches the record of that payload, with the
/// digest that came with it.
pub proof fn lemma_rebuild_is_fetched(
    m: ManagerView,
    device: Seq<char>,
    c: CandidateView,
    reported: Seq<char>,
    data: Seq<u8>,
    fetched: Seq<char>,
)
    requires
        sound(m),
        lookup(m.entries, device) is Some,
        lookup(m.entries, device)->0.manifest_digest != reported,
        !m.in_flight.contains(device),
    ensures
        after_digest(m, device, c, reported).action == ActionView::FetchBlob(c.tag),
        after_digest(m, device, c, reported).phase == PhaseView::Fetching(c),
        ({
            let during = after_digest(m, device, c, reported).manager;
            let end = after_fetch(during, device, c, EventView::Blob(Some((data, fetched))));
            let record = record_of(c.version, data, fetched);
            &&& end.action == ActionView::Return { outcome: Ok(record), hit: false, released: true }
            &&& lookup(end.manager.entries, device) == Some(record)
            &&& record.manifest_digest == fetched
            &&& record.binary == data
            &&& consistent(record)
            &&& !end.manager.in_flight.contains(device)
        }),
{
    let during = after_digest(m, device, c, reported).manager;
    lemma_promoted_bounded(m.entries, m.capacity, device);
    lemma_stored_bounded(during.entries, during.capacity, device, record_of(c.version, data, fetched));
}

/// A current record is served from the cache, and nothing is fetched for it.
pub proof fn lemma_current_is_served(
    m: ManagerView,
    device: Seq<char>,
    c: CandidateView,
    reported: Seq<char>,
)
    requires
        lookup(m.entries, device) is Some,
        is_current(lookup(m.entries, device)->0, c.version, reported),
    ensures
        after_digest(m, device, c, reported).action == (ActionView::Return {
            outcome: Ok(lookup(m.entries, device)->0),
            hit: true,
            released: false,
        }),
        after_digest(m, device, c, reported).manager.in_flight == m.in_flight,
{
}

/// One thing that happens to the service.
pub enum MoveView {
    /// A request for the device comes in.
    Join(Seq<char>),
    /// The request with this number takes a step on the event.
    Step(int, EventView),
}

/// The service at its start: an empty cache with room for `capacity`
/// records, nothing being fetched, no request.
pub open spec fn fresh(capacity: nat) -> SystemView {
    SystemView {
        manager: ManagerView { entries: Seq::empty(), capacity, in_flight: Set::empty() },
        requests: Seq::empty(),
    }
}

/// The service after a sequence of moves. A step of a request that does not
/// exist changes nothing.
pub open spec fn ran(s: SystemView, moves: Seq<MoveView>) -> SystemView
    decreases moves.len(),
{
    if moves.len() == 0 {
        s
    } else {
        let before = ran(s, moves.drop_last());
        match moves.last() {
            MoveView::Join(device) => joined(before, device),
            MoveView::Step(i, e) => if 0 <= i < before.requests.len() {
                stepped(before, i, e)
            } else {
                before
            },
        }
    }
}

/// A service that starts with a positive capacity is within its bounds and
/// in single flight.
pub proof fn lemma_fresh_is_sound(capacity: nat)
    requires
        capacity > 0,
    ensures
        sound(fresh(capacity).manager),
        single_flight(fresh(capacity)),
{
}

/// Whatever happens, and in whatever order, the cache stays within its
/// capacity and the service stays in single flight.
pub proof fn lemma_always_sound(s: SystemView, moves: Seq<MoveView>)
    requires
        sound(s.manager),
        single_flight(s),
    ensures
        sound(ran(s, moves).manager),
        single_flight(ran(s, moves)),
        ran(s, moves).manager.capacity == s.manager.capacity,
        ran(s, moves).manager.entries.len() <= s.manager.capacity,
    decreases moves.len(),
{
    if moves.len() > 0 {
        lemma_always_sound(s, moves.drop_last());
        let before = ran(s, moves.drop_last());
        match moves.last() {
            MoveView::Join(device) => {
                lemma_join_keeps_single_flight(before, device);
            },
            MoveView::Step(i, e) => {
                if 0 <= i < before.requests.len() {
                    lemma_step_keeps_bounds(before.manager, before.requests[i], e);
                    lemma_step_keeps_single_flight(before, i, e);
                }
            },
        }
    }
}

} // verus!
