//! The set of devices whose firmware is being fetched right now. A device is
//! claimed by the one request that fetches for it and released when that
//! fetch has ended, however it ended.

use crate::text::same_text;
use vstd::prelude::*;
use vstd::string::StringExecFns;

verus! {

/// The devices with a fetch under way.
pub struct InFlight {
    ids: Vec<String>,
}

impl View for InFlight {
    type V = Set<Seq<char>>;

    closed spec fn view(&self) -> Set<Seq<char>> {
        Set::new(|d: Seq<char>| self.names().contains(d))
    }
}

impl InFlight {
    spec fn names(&self) -> Seq<Seq<char>> {
        Seq::new(self.ids@.len(), |i: int| self.ids@[i]@)
    }

    #[verifier::type_invariant]
    spec fn listed_once(&self) -> bool {
        self.names().no_duplicates()
    }

    /// No fetch is under way.
    pub fn new() -> (s: InFlight)
        ensures
            s@ == Set::<Seq<char>>::empty(),
    {
        let s = InFlight { ids: Vec::new() };
        assert(s@ =~= Set::<Seq<char>>::empty());
        s
    }

    fn position(&self, device: &str) -> (r: Option<usize>)
        ensures
            self.names().no_duplicates(),
            match r {
                Some(i) => i < self.ids@.len() && self.names()[i as int] == device@,
                None => !self@.contains(device@),
            },
    {
        proof {
            use_type_invariant(self);
        }
        let mut i: usize = 0;
        while i < self.ids.len()
            invariant
                i <= self.ids@.len(),
                self.names().len() == self.ids@.len(),
                self.names().no_duplicates(),
                forall|k: int| 0 <= k < i ==> #[trigger] self.names()[k] != device@,
            decreases self.ids@.len() - i,
        {
            if same_text(self.ids[i].as_str(), device) {
                return Some(i);
            }
            i += 1;
        }
        None
    }

    /// Whether a fetch for the device is under way.
    pub fn contains(&self, device: &str) -> (r: bool)
        ensures
            r == self@.contains(device@),
    {
        match self.position(device) {
            Some(i) => {
                assert(self.names()[i as int] == device@);
                true
            },
            None => false,
        }
    }

    /// Claims the device for the caller. The caller owns the fetch exactly
    /// when no fetch for the device was under way; either way one is under
    /// way afterwards.
    pub fn claim(&mut self, device: &str) -> (owner: bool)
        ensures
            owner == !old(self)@.contains(device@),
            final(self)@ == old(self)@.insert(device@),
    {
        match self.position(device) {
            Some(i) => {
                assert(self.names()[i as int] == device@);
                assert(self@ =~= self@.insert(device@));
                false
            },
            None => {
                let ghost before = self.names();
                let mut ids: Vec<String> = Vec::new();
                core::mem::swap(&mut self.ids, &mut ids);
                ids.push(String::from_str(device));
                proof {
                    let after = Seq::new(ids@.len(), |i: int| ids@[i]@);
                    assert(after =~= before.push(device@));
                    assert forall|d: Seq<char>| after.contains(d) <==> (before.contains(d) || d
                        == device@) by {
                        if before.contains(d) {
                            let k = choose|k: int| 0 <= k < before.len() && before[k] == d;
                            assert(after[k] == d);
                        }
                        if d == device@ {
                            assert(after[after.len() - 1] == d);
                        }
                    }
                }
                self.ids = ids;
                assert(self@ =~= old(self)@.insert(device@));
                true
            },
        }
    }

    /// Ends the fetch for the device, if there is one. Returns whether there
    /// was one. Releasing twice does no harm.
    pub fn release(&mut self, device: &str) -> (held: bool)
        ensures
            held == old(self)@.contains(device@),
            final(self)@ == old(self)@.remove(device@),
    {
        match self.position(device) {
            Some(i) => {
                let ghost before = self.names();
                assert(before[i as int] == device@);
                let mut ids: Vec<String> = Vec::new();
                core::mem::swap(&mut self.ids, &mut ids);
                ids.remove(i);
                proof {
                    let after = Seq::new(ids@.len(), |k: int| ids@[k]@);
                    assert(after =~= before.remove(i as int));
                    assert forall|d: Seq<char>| after.contains(d) <==> (before.contains(d) && d
                        != device@) by {
                        if after.contains(d) {
                            let k = choose|k: int| 0 <= k < after.len() && after[k] == d;
                            let s = if k < i { k } else { k + 1 };
                            assert(before[s] == d);
                        }
                        if before.contains(d) && d != device@ {
                            let k = choose|k: int| 0 <= k < before.len() && before[k] == d;
                            let t = if k < i { k } else { k - 1 };
                            assert(after[t] == d);
                        }
                    }
                    assert(after.no_duplicates()) by {
                        assert forall|a: int, b: int|
                            0 <= a < after.len() && 0 <= b < after.len() && a != b implies after[a]
                            != after[b] by {
                            let sa = if a < i { a } else { a + 1 };
                            let sb = if b < i { b } else { b + 1 };
                            assert(after[a] == before[sa]);
                            assert(after[b] == before[sb]);
                        }
                    }
                }
                self.ids = ids;
                assert(self@ =~= old(self)@.remove(device@));
                true
            },
            None => {
                assert(self@ =~= self@.remove(device@));
                false
            },
        }
    }

    /// The number of fetches under way.
    pub fn len(&self) -> (n: usize)
        ensures
            n == self@.len(),
            self@.finite(),
    {
        proof {
            use_type_invariant(self);
            self.names().unique_seq_to_set();
            assert(self@ =~= self.names().to_set());
        }
        self.ids.len()
    }
}

} // verus!
