//! The addresses already saved in the batch at hand.

use vstd::prelude::*;
use crate::text::same_bytes;

verus! {

/// The keys of the media saved so far for one account. A key enters once its
/// payload has been accepted and written, and stays until the batch ends.
pub struct DownloadHistory {
    keys: Vec<Vec<u8>>,
}

/// The byte strings that a list of keys holds, in order.
pub open spec fn key_seq(keys: Seq<Vec<u8>>) -> Seq<Seq<u8>> {
    keys.map_values(|k: Vec<u8>| k@)
}

impl View for DownloadHistory {
    type V = Set<Seq<u8>>;

    closed spec fn view(&self) -> Set<Seq<u8>> {
        key_seq(self.keys@).to_set()
    }
}

impl DownloadHistory {
    /// No key is held twice.
    pub closed spec fn well_formed(&self) -> bool {
        key_seq(self.keys@).no_duplicates()
    }

    /// The number of keys held.
    pub closed spec fn count(&self) -> nat {
        self.keys@.len()
    }

    /// The number of keys held is the size of the set they form.
    pub proof fn lemma_count(&self)
        requires
            self.well_formed(),
        ensures
            self@.finite(),
            self@.len() == self.count(),
    {
        key_seq(self.keys@).unique_seq_to_set();
    }

    /// A history that holds nothing.
    pub fn new() -> (h: DownloadHistory)
        ensures
            h.well_formed(),
            h@ == Set::<Seq<u8>>::empty(),
            h.count() == 0,
    {
        let h = DownloadHistory { keys: Vec::new() };
        assert(key_seq(h.keys@) =~= Seq::<Seq<u8>>::empty());
        assert(h@ =~= Set::<Seq<u8>>::empty());
        h
    }

    /// Whether the key is held.
    pub fn contains(&self, key: &[u8]) -> (r: bool)
        ensures
            r == self@.contains(key@),
    {
        let mut i: usize = 0;
        while i < self.keys.len()
            invariant
                i <= self.keys.len(),
                forall|j: int| 0 <= j < i ==> key_seq(self.keys@)[j] != key@,
            decreases self.keys.len() - i,
        {
            if same_bytes(self.keys[i].as_slice(), key) {
                assert(key_seq(self.keys@)[i as int] == key@);
                return true;
            }
            i += 1;
        }
        false
    }

    /// How many keys are held.
    pub fn len(&self) -> (n: usize)
        requires
            self.well_formed(),
        ensures
            n == self@.len(),
            n == self.count(),
    {
        proof {
            self.lemma_count();
        }
        self.keys.len()
    }

    /// Takes the key of a payload that was saved. A key already held is not
    /// taken twice.
    pub fn record(&mut self, key: Vec<u8>)
        requires
            old(self).well_formed(),
        ensures
            final(self).well_formed(),
            final(self)@ == old(self)@.insert(key@),
            final(self).count() == if old(self)@.contains(key@) {
                old(self).count()
            } else {
                old(self).count() + 1
            },
    {
        if self.contains(key.as_slice()) {
            assert(self@.insert(key@) =~= self@);
            return;
        }
        let ghost before = key_seq(self.keys@);
        self.keys.push(key);
        proof {
            let after = key_seq(self.keys@);
            assert(after =~= before.push(key@));
            assert(after.to_set() =~= before.to_set().insert(key@)) by {
                assert forall|k: Seq<u8>| after.to_set().contains(k) <==> before.to_set().insert(
                    key@,
                ).contains(k) by {
                    if after.contains(k) {
                        let j = choose|j: int| 0 <= j < after.len() && after[j] == k;
                        if j < before.len() {
                            assert(before[j] == k);
                        }
                    }
                    if before.contains(k) {
                        let j = choose|j: int| 0 <= j < before.len() && before[j] == k;
                        assert(after[j] == k);
                    }
                    if k == key@ {
                        assert(after[before.len() as int] == k);
                    }
                }
            }
            assert(after.no_duplicates()) by {
                assert forall|a: int, b: int| 0 <= a < after.len() && 0 <= b < after.len() && a != b
                    implies after[a] != after[b] by {
                    if a < before.len() && b < before.len() {
                    } else if a < before.len() {
                        assert(before.contains(before[a]));
                    } else {
                        assert(before.contains(before[b]));
                    }
                }
            }
        }
    }

    /// Forgets every key: the next account starts with nothing saved.
    pub fn clear(&mut self)
        ensures
            final(self).well_formed(),
            final(self)@ == Set::<Seq<u8>>::empty(),
            final(self).count() == 0,
    {
        self.keys = Vec::new();
        assert(key_seq(self.keys@) =~= Seq::<Seq<u8>>::empty());
        assert(self@ =~= Set::<Seq<u8>>::empty());
    }
}

} // verus!
