//! Choosing the release to serve: among the tags of a repository, the one
//! with the highest semantic version. Tags that are no semantic version are
//! passed over.

use crate::version::{parsed_version, precedes_eq, SemVer, SemVerView};
use vstd::prelude::*;

verus! {

/// The value of a candidate: a tag and the version that it reads as.
pub struct CandidateView {
    pub tag: Seq<char>,
    pub version: SemVerView,
}

/// A tag that is a semantic version, with that version.
#[derive(Debug)]
pub struct Candidate {
    pub tag: String,
    pub version: SemVer,
}

impl View for Candidate {
    type V = CandidateView;

    open spec fn view(&self) -> CandidateView {
        CandidateView { tag: self.tag@, version: self.version@ }
    }
}

/// The texts of a list of tags.
pub open spec fn texts(tags: Seq<String>) -> Seq<Seq<char>> {
    Seq::new(tags.len(), |i: int| tags[i]@)
}

/// The values of a list of candidates.
pub open spec fn values(candidates: Seq<Candidate>) -> Seq<CandidateView> {
    Seq::new(candidates.len(), |i: int| candidates[i]@)
}

/// The candidates among some tags: each tag that reads as a semantic
/// version, in the order of the tags.
pub open spec fn candidates_of(tags: Seq<Seq<char>>) -> Seq<CandidateView>
    decreases tags.len(),
{
    if tags.len() == 0 {
        Seq::empty()
    } else {
        let earlier = candidates_of(tags.drop_last());
        match parsed_version(tags.last()) {
            Some(version) => earlier.push(CandidateView { tag: tags.last(), version }),
            None => earlier,
        }
    }
}

/// The candidate at `k` is the latest: no candidate has a higher version,
/// and none after it has a version as high.
pub open spec fn is_latest(candidates: Seq<CandidateView>, k: int) -> bool {
    &&& 0 <= k < candidates.len()
    &&& forall|i: int|
        0 <= i < candidates.len() ==> precedes_eq(
            (#[trigger] candidates[i]).version,
            candidates[k].version,
        )
    &&& forall|i: int|
        k < i < candidates.len() ==> !precedes_eq(
            candidates[k].version,
            (#[trigger] candidates[i]).version,
        )
}

/// The latest release among some tags, if any of them is a semantic version.
pub open spec fn latest(tags: Seq<Seq<char>>) -> Option<CandidateView> {
    let candidates = candidates_of(tags);
    if candidates.len() == 0 {
        None
    } else {
        Some(candidates[choose|k: int| is_latest(candidates, k)])
    }
}

/// There is one latest candidate at most.
pub proof fn lemma_latest_unique(candidates: Seq<CandidateView>, j: int, k: int)
    requires
        is_latest(candidates, j),
        is_latest(candidates, k),
    ensures
        j == k,
{
    if j < k {
        assert(precedes_eq(candidates[j].version, candidates[k].version));
    } else if k < j {
        assert(precedes_eq(candidates[k].version, candidates[j].version));
    }
}

/// Reads each tag and keeps those that are semantic versions.
pub fn parse_tags(tags: &Vec<String>) -> (found: Vec<Candidate>)
    ensures
        values(found@) == candidates_of(texts(tags@)),
{
    let mut found: Vec<Candidate> = Vec::new();
    let mut i: usize = 0;
    while i < tags.len()
        invariant
            i <= tags@.len(),
            values(found@) == candidates_of(texts(tags@).take(i as int)),
        decreases tags@.len() - i,
    {
        let ghost before = values(found@);
        proof {
            let upto = texts(tags@).take(i as int + 1);
            assert(upto.drop_last() =~= texts(tags@).take(i as int));
            assert(upto.last() == tags@[i as int]@);
        }
        match SemVer::parse(tags[i].as_str()) {
            Some(version) => {
                found.push(Candidate { tag: tags[i].clone(), version });
                assert(values(found@) =~= before.push(
                    CandidateView { tag: tags@[i as int]@, version: version@ },
                ));
            },
            None => {},
        }
        i += 1;
    }
    assert(texts(tags@).take(tags@.len() as int) =~= texts(tags@));
    found
}

/// The position of the latest candidate: the one with the highest version,
/// and the last of those where several are equally high. `None` where there
/// is no candidate.
pub fn highest(candidates: &Vec<Candidate>) -> (r: Option<usize>)
    ensures
        match r {
            Some(k) => is_latest(values(candidates@), k as int),
            None => candidates@.len() == 0,
        },
{
    if candidates.len() == 0 {
        return None;
    }
    let first = &candidates[0].version;
    proof {
        use_type_invariant(first);
    }
    let mut best: usize = 0;
    let mut i: usize = 1;
    while i < candidates.len()
        invariant
            best < i <= candidates@.len(),
            forall|j: int|
                0 <= j < i ==> precedes_eq(
                    (#[trigger] values(candidates@)[j]).version,
                    values(candidates@)[best as int].version,
                ),
            forall|j: int|
                best < j < i ==> !precedes_eq(
                    values(candidates@)[best as int].version,
                    (#[trigger] values(candidates@)[j]).version,
                ),
        decreases candidates@.len() - i,
    {
        if candidates[best].version.at_most(&candidates[i].version) {
            best = i;
        }
        i += 1;
    }
    Some(best)
}

/// A copy of a candidate.
fn copy_of(candidate: &Candidate) -> (c: Candidate)
    ensures
        c@ == candidate@,
{
    Candidate { tag: candidate.tag.clone(), version: candidate.version.duplicate() }
}

/// The latest release among the tags of a repository: the tag with the
/// highest semantic version, and the last such tag where several are equally
/// high. `None` exactly when no tag is a semantic version.
pub fn select_latest(tags: &Vec<String>) -> (r: Option<Candidate>)
    ensures
        match r {
            Some(c) => exists|k: int|
                is_latest(candidates_of(texts(tags@)), k) && candidates_of(texts(tags@))[k] == c@,
            None => candidates_of(texts(tags@)).len() == 0,
        },
        latest(texts(tags@)) == match r {
            Some(c) => Some(c@),
            None => None,
        },
{
    let found = parse_tags(tags);
    match highest(&found) {
        Some(k) => {
            let c = copy_of(&found[k]);
            proof {
                let all = candidates_of(texts(tags@));
                assert(is_latest(all, k as int) && all[k as int] == c@);
                let chosen = choose|j: int| is_latest(all, j);
                lemma_latest_unique(all, chosen, k as int);
            }
            Some(c)
        },
        None => None,
    }
}

/// Every candidate stems from a tag that reads as its version.
pub proof fn lemma_candidate_is_tag(tags: Seq<Seq<char>>, k: int)
    requires
        0 <= k < candidates_of(tags).len(),
    ensures
        tags.contains(candidates_of(tags)[k].tag),
        parsed_version(candidates_of(tags)[k].tag) == Some(candidates_of(tags)[k].version),
    decreases tags.len(),
{
    if tags.len() > 0 {
        let earlier = candidates_of(tags.drop_last());
        if k < earlier.len() {
            lemma_candidate_is_tag(tags.drop_last(), k);
            let t = candidates_of(tags)[k].tag;
            let j = choose|j: int| 0 <= j < tags.drop_last().len() && tags.drop_last()[j] == t;
            assert(tags[j] == t);
        } else {
            assert(tags[tags.len() - 1] == tags.last());
        }
    }
}

/// Every tag that reads as a version is among the candidates.
pub proof fn lemma_tag_is_candidate(tags: Seq<Seq<char>>, i: int)
    requires
        0 <= i < tags.len(),
        parsed_version(tags[i]) is Some,
    ensures
        exists|k: int|
            0 <= k < candidates_of(tags).len() && #[trigger] candidates_of(tags)[k] == (
            CandidateView { tag: tags[i], version: parsed_version(tags[i])->0 }),
    decreases tags.len(),
{
    let all = candidates_of(tags);
    let earlier = candidates_of(tags.drop_last());
    if i == tags.len() - 1 {
        assert(all[earlier.len() as int] == (CandidateView {
            tag: tags[i],
            version: parsed_version(tags[i])->0,
        }));
    } else {
        lemma_tag_is_candidate(tags.drop_last(), i);
        let k = choose|k: int|
            0 <= k < earlier.len() && #[trigger] earlier[k] == (CandidateView {
                tag: tags.drop_last()[i],
                version: parsed_version(tags.drop_last()[i])->0,
            });
        assert(all[k] == earlier[k]);
    }
}

/// The latest candidate is a tag of the repository, it reads as its version,
/// and no tag of the repository reads as a higher version.
pub proof fn lemma_latest_is_maximum(tags: Seq<Seq<char>>, k: int)
    requires
        is_latest(candidates_of(tags), k),
    ensures
        tags.contains(candidates_of(tags)[k].tag),
        parsed_version(candidates_of(tags)[k].tag) == Some(candidates_of(tags)[k].version),
        forall|i: int|
            0 <= i < tags.len() && (#[trigger] parsed_version(tags[i])) is Some ==> precedes_eq(
                parsed_version(tags[i])->0,
                candidates_of(tags)[k].version,
            ),
{
    lemma_candidate_is_tag(tags, k);
    assert forall|i: int|
        0 <= i < tags.len() && (#[trigger] parsed_version(tags[i])) is Some implies precedes_eq(
        parsed_version(tags[i])->0,
        candidates_of(tags)[k].version,
    ) by {
        lemma_tag_is_candidate(tags, i);
        let j = choose|j: int|
            0 <= j < candidates_of(tags).len() && #[trigger] candidates_of(tags)[j] == (
            CandidateView { tag: tags[i], version: parsed_version(tags[i])->0 });
        assert(precedes_eq(candidates_of(tags)[j].version, candidates_of(tags)[k].version));
    }
}

} // verus!
