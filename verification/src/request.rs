//! One request for a device's firmware, as a machine that is driven from
//! outside. The caller performs the action that a step names (a call to the
//! registry, or waiting for another request) and hands the answer back as an
//! event. The steps themselves never wait.
//!
//! A request lists the tags, picks the latest release, asks for its manifest
//! digest, and then serves the cached record, fetches, or waits. The request
//! that fetches has claimed its device; whatever event comes next, the step
//! that takes it releases the device.

use crate::cache::lookup;
use crate::error::FirmwareError;
use crate::manager::{
    abandoned, decided, decision, installed, Decision, DecisionView, FirmwareManager, ManagerView,
};
use crate::record::{consistent, record_of, FirmwareInfo, RecordView};
use crate::resolver::{latest, select_latest, texts, Candidate, CandidateView};
use std::sync::Arc;
use vstd::prelude::*;

verus! {

/// Where a request stands.
pub enum PhaseView {
    Start,
    ListingTags,
    FetchingDigest(CandidateView),
    Fetching(CandidateView),
    Waiting,
    Done,
}

/// The value of a request.
pub struct RequestView {
    pub device: Seq<char>,
    pub phase: PhaseView,
}

/// The value of an event.
pub enum EventView {
    Begin,
    Tags(Option<Seq<Seq<char>>>),
    Digest(Option<Seq<char>>),
    Blob(Option<(Seq<u8>, Seq<char>)>),
    Woken,
    Cancelled,
}

/// The value of an action.
pub enum ActionView {
    ListTags,
    FetchManifestDigest(Seq<char>),
    FetchBlob(Seq<char>),
    Wait,
    Return { outcome: Result<RecordView, FirmwareError>, hit: bool, released: bool },
}

/// What a step leaves behind: the shared state, where the request stands,
/// and what the caller is to do.
pub struct StepView {
    pub manager: ManagerView,
    pub phase: PhaseView,
    pub action: ActionView,
}

/// A step that ends the request with an error and leaves the shared state
/// alone.
pub open spec fn failed(m: ManagerView, error: FirmwareError) -> StepView {
    StepView {
        manager: m,
        phase: PhaseView::Done,
        action: ActionView::Return { outcome: Err(error), hit: false, released: false },
    }
}

/// The step of a request that has the tags of its repository.
pub open spec fn after_tags(m: ManagerView, tags: Seq<Seq<char>>) -> StepView {
    match latest(tags) {
        Some(c) => StepView {
            manager: m,
            phase: PhaseView::FetchingDigest(c),
            action: ActionView::FetchManifestDigest(c.tag),
        },
        None => failed(m, FirmwareError::NotFound),
    }
}

/// The step of a request that has the manifest digest of the latest release.
pub open spec fn after_digest(
    m: ManagerView,
    device: Seq<char>,
    c: CandidateView,
    digest: Seq<char>,
) -> StepView {
    let manager = decided(m, device, c.version, digest);
    match decision(m, device, c.version, digest) {
        DecisionView::Hit(record) => StepView {
            manager,
            phase: PhaseView::Done,
            action: ActionView::Return { outcome: Ok(record), hit: true, released: false },
        },
        DecisionView::Fetch => StepView {
            manager,
            phase: PhaseView::Fetching(c),
            action: ActionView::FetchBlob(c.tag),
        },
        DecisionView::Wait => StepView {
            manager,
            phase: PhaseView::Waiting,
            action: ActionView::Wait,
        },
    }
}

/// The step of the fetching request, whatever event it is handed: with a
/// payload the record is installed; with anything else nothing is. Either
/// way the device is released.
pub open spec fn after_fetch(
    m: ManagerView,
    device: Seq<char>,
    c: CandidateView,
    e: EventView,
) -> StepView {
    match e {
        EventView::Blob(Some((data, digest))) => {
            let record = record_of(c.version, data, digest);
            StepView {
                manager: installed(m, device, record),
                phase: PhaseView::Done,
                action: ActionView::Return { outcome: Ok(record), hit: false, released: true },
            }
        },
        _ => StepView {
            manager: abandoned(m, device),
            phase: PhaseView::Done,
            action: ActionView::Return {
                outcome: Err(
                    if e == EventView::Blob(None) {
                        FirmwareError::Upstream
                    } else {
                        FirmwareError::Interrupted
                    },
                ),
                hit: false,
                released: true,
            },
        },
    }
}

/// The step of a request that waited and was woken: what the cache holds
/// for its device, or an error. It does not fetch.
pub open spec fn after_wait(m: ManagerView, device: Seq<char>) -> StepView {
    StepView {
        manager: m,
        phase: PhaseView::Done,
        action: ActionView::Return {
            outcome: match lookup(m.entries, device) {
                Some(record) => Ok(record),
                None => Err(FirmwareError::Unavailable),
            },
            hit: false,
            released: false,
        },
    }
}

/// One step of a request: from the shared state, the request and an event
/// to the shared state, the request's next phase and the action to perform.
pub open spec fn next(m: ManagerView, r: RequestView, e: EventView) -> StepView {
    match r.phase {
        PhaseView::Start => match e {
            EventView::Begin => StepView {
                manager: m,
                phase: PhaseView::ListingTags,
                action: ActionView::ListTags,
            },
            _ => failed(m, FirmwareError::Interrupted),
        },
        PhaseView::ListingTags => match e {
            EventView::Tags(Some(tags)) => after_tags(m, tags),
            EventView::Tags(None) => failed(m, FirmwareError::Upstream),
            _ => failed(m, FirmwareError::Interrupted),
        },
        PhaseView::FetchingDigest(c) => match e {
            EventView::Digest(Some(digest)) => after_digest(m, r.device, c, digest),
            EventView::Digest(None) => failed(m, FirmwareError::Upstream),
            _ => failed(m, FirmwareError::Interrupted),
        },
        PhaseView::Fetching(c) => after_fetch(m, r.device, c, e),
        PhaseView::Waiting => match e {
            EventView::Woken => after_wait(m, r.device),
            _ => failed(m, FirmwareError::Interrupted),
        },
        PhaseView::Done => failed(m, FirmwareError::Interrupted),
    }
}

/// Where a request stands.
pub enum Phase {
    /// Nothing was asked yet.
    Start,
    /// The tags of the device's repository were asked for.
    ListingTags,
    /// The manifest digest of the latest release was asked for.
    FetchingDigest(Candidate),
    /// This request fetches the payload and holds the claim on its device.
    Fetching(Candidate),
    /// Another request fetches; this one waits for it to end.
    Waiting,
    /// The request has returned.
    Done,
}

impl View for Phase {
    type V = PhaseView;

    open spec fn view(&self) -> PhaseView {
        match self {
            Phase::Start => PhaseView::Start,
            Phase::ListingTags => PhaseView::ListingTags,
            Phase::FetchingDigest(c) => PhaseView::FetchingDigest(c@),
            Phase::Fetching(c) => PhaseView::Fetching(c@),
            Phase::Waiting => PhaseView::Waiting,
            Phase::Done => PhaseView::Done,
        }
    }
}

/// One request for the firmware of a device.
pub struct Request {
    pub device: String,
    pub phase: Phase,
}

impl View for Request {
    type V = RequestView;

    open spec fn view(&self) -> RequestView {
        RequestView { device: self.device@, phase: self.phase@ }
    }
}

/// A payload as the registry hands it out, with the digest of its manifest.
pub struct Blob {
    pub data: Vec<u8>,
    pub manifest_digest: String,
}

/// What the caller reports back. `None` stands for a call that failed.
pub enum Event {
    /// The request is to start.
    Begin,
    /// The tags of the device's repository.
    Tags(Option<Vec<String>>),
    /// The manifest digest of the release that was asked about.
    Digest(Option<String>),
    /// The payload of the release that was asked for.
    Blob(Option<Blob>),
    /// The fetch that this request waited for has ended, or the wait could
    /// not go on.
    Woken,
    /// The request was given up by its caller.
    Cancelled,
}

impl View for Event {
    type V = EventView;

    open spec fn view(&self) -> EventView {
        match self {
            Event::Begin => EventView::Begin,
            Event::Tags(Some(tags)) => EventView::Tags(Some(texts(tags@))),
            Event::Tags(None) => EventView::Tags(None),
            Event::Digest(Some(d)) => EventView::Digest(Some(d@)),
            Event::Digest(None) => EventView::Digest(None),
            Event::Blob(Some(b)) => EventView::Blob(Some((b.data@, b.manifest_digest@))),
            Event::Blob(None) => EventView::Blob(None),
            Event::Woken => EventView::Woken,
            Event::Cancelled => EventView::Cancelled,
        }
    }
}

/// What the caller is to do next.
pub enum Action {
    /// Ask the registry for the tags of the device's repository.
    ListTags,
    /// Ask the registry for the manifest digest of this tag.
    FetchManifestDigest { tag: String },
    /// Fetch the payload of this tag. The cache had nothing current.
    FetchBlob { tag: String },
    /// Wait until the fetch for the device has ended.
    Wait,
    /// Hand the outcome to whoever asked. `hit` says that the record came
    /// straight from the cache; `released` that the device was released, so
    /// that those who wait for it are to be woken.
    Return { outcome: Result<Arc<FirmwareInfo>, FirmwareError>, hit: bool, released: bool },
}

impl View for Action {
    type V = ActionView;

    open spec fn view(&self) -> ActionView {
        match self {
            Action::ListTags => ActionView::ListTags,
            Action::FetchManifestDigest { tag } => ActionView::FetchManifestDigest(tag@),
            Action::FetchBlob { tag } => ActionView::FetchBlob(tag@),
            Action::Wait => ActionView::Wait,
            Action::Return { outcome, hit, released } => ActionView::Return {
                outcome: match outcome {
                    Ok(record) => Ok(record@),
                    Err(e) => Err(*e),
                },
                hit: *hit,
                released: *released,
            },
        }
    }
}

/// Every record that an action hands out has the size and the checksum of
/// its payload.
pub open spec fn hands_out_consistent(action: ActionView) -> bool {
    action matches ActionView::Return { outcome: Ok(record), .. } ==> consistent(record)
}

impl Request {
    /// A request that has not started.
    pub fn new(device: String) -> (r: Request)
        ensures
            r@ == (RequestView { device: device@, phase: PhaseView::Start }),
    {
        Request { device, phase: Phase::Start }
    }

    /// Whether the request has returned.
    pub fn is_done(&self) -> (r: bool)
        ensures
            r == (self@.phase is Done),
    {
        match self.phase {
            Phase::Done => true,
            _ => false,
        }
    }

    /// Whether the request holds the claim on its device.
    pub fn is_owner(&self) -> (r: bool)
        ensures
            r == (self@.phase is Fetching),
    {
        match self.phase {
            Phase::Fetching(_) => true,
            _ => false,
        }
    }
}

fn fail(error: FirmwareError) -> (r: (Phase, Action))
    ensures
        forall|m: ManagerView| #[trigger]
            failed(m, error) == (StepView { manager: m, phase: r.0@, action: r.1@ }),
{
    (Phase::Done, Action::Return { outcome: Err(error), hit: false, released: false })
}

impl FirmwareManager {
    /// Takes one step of a request: applies the event to the shared state and
    /// says what the caller is to do next.
    pub fn step(&mut self, request: Request, event: Event) -> (r: (Request, Action))
        ensures
            next(old(self)@, request@, event@) == (StepView {
                manager: final(self)@,
                phase: r.0@.phase,
                action: r.1@,
            }),
            r.0@.device == request@.device,
            hands_out_consistent(r.1@),
    {
        let Request { device, phase } = request;
        let (phase, action) = match phase {
            Phase::Start => match event {
                Event::Begin => (Phase::ListingTags, Action::ListTags),
                _ => fail(FirmwareError::Interrupted),
            },
            Phase::ListingTags => match event {
                Event::Tags(Some(tags)) => match select_latest(&tags) {
                    Some(c) => {
                        let tag = c.tag.clone();
                        (Phase::FetchingDigest(c), Action::FetchManifestDigest { tag })
                    },
                    None => fail(FirmwareError::NotFound),
                },
                Event::Tags(None) => fail(FirmwareError::Upstream),
                _ => fail(FirmwareError::Interrupted),
            },
            Phase::FetchingDigest(c) => match event {
                Event::Digest(Some(digest)) => {
                    match self.decide(device.as_str(), &c.version, digest.as_str()) {
                        Decision::Hit(record) => (
                            Phase::Done,
                            Action::Return { outcome: Ok(record), hit: true, released: false },
                        ),
                        Decision::Fetch => {
                            let tag = c.tag.clone();
                            (Phase::Fetching(c), Action::FetchBlob { tag })
                        },
                        Decision::Wait => (Phase::Waiting, Action::Wait),
                    }
                },
                Event::Digest(None) => fail(FirmwareError::Upstream),
                _ => fail(FirmwareError::Interrupted),
            },
            Phase::Fetching(c) => match event {
                Event::Blob(Some(blob)) => {
                    let record = self.install(
                        device.as_str(),
                        c.version,
                        blob.data,
                        blob.manifest_digest,
                    );
                    (
                        Phase::Done,
                        Action::Return { outcome: Ok(record), hit: false, released: true },
                    )
                },
                Event::Blob(None) => {
                    self.abandon(device.as_str());
                    (
                        Phase::Done,
                        Action::Return {
                            outcome: Err(FirmwareError::Upstream),
                            hit: false,
                            released: true,
                        },
                    )
                },
                _ => {
                    self.abandon(device.as_str());
                    (
                        Phase::Done,
                        Action::Return {
                            outcome: Err(FirmwareError::Interrupted),
                            hit: false,
                            released: true,
                        },
                    )
                },
            },
            Phase::Waiting => match event {
                Event::Woken => (
                    Phase::Done,
                    Action::Return { outcome: self.recheck(device.as_str()), hit: false, released: false },
                ),
                _ => fail(FirmwareError::Interrupted),
            },
            Phase::Done => fail(FirmwareError::Interrupted),
        };
        (Request { device, phase }, action)
    }
}

} // verus!
