use vstd::prelude::*;

use crate::dispatch::{check_dimension, supported_dim};
use crate::error::BridgeError;

verus! {

/// What registering a result under `key` with dimension `n` yields, and the
/// live results after it.
pub open spec fn register_outcome(live: Map<usize, usize>, key: usize, n: usize) -> (
    Result<(), BridgeError>,
    Map<usize, usize>,
) {
    if !supported_dim(n as int) {
        (Err(BridgeError::UnsupportedDimension { n }), live)
    } else if live.contains_key(key) {
        (Err(BridgeError::AlreadyLive { key }), live)
    } else {
        (Ok(()), live.insert(key, n))
    }
}

/// What releasing the result under `key` with dimension `n` yields, and the
/// live results after it.
pub open spec fn release_outcome(live: Map<usize, usize>, key: usize, n: usize) -> (
    Result<(), BridgeError>,
    Map<usize, usize>,
) {
    if !live.contains_key(key) {
        (Err(BridgeError::NotLive { key }), live)
    } else if live[key] != n {
        (Err(BridgeError::DimensionMismatch { expected: live[key], got: n }), live)
    } else {
        (Ok(()), live.remove(key))
    }
}

/// The results handed to the host and not yet released, each under a key
/// with the dimension it was made with.
pub struct LiveResults {
    entries: Vec<(usize, usize)>,
    model: Ghost<Map<usize, usize>>,
}

impl LiveResults {
    /// Each live key with its dimension.
    pub closed spec fn view(&self) -> Map<usize, usize> {
        self.model@
    }

    /// The entries hold each key of the model once, with its dimension.
    pub closed spec fn wf(&self) -> bool {
        &&& forall|i: int|
            0 <= i < self.entries@.len() ==> self.model@.contains_key(
                (#[trigger] self.entries@[i]).0,
            ) && self.model@[self.entries@[i].0] == self.entries@[i].1
        &&& forall|k: usize|
            #[trigger] self.model@.contains_key(k) ==> exists|i: int|
                0 <= i < self.entries@.len() && (#[trigger] self.entries@[i]).0 == k
        &&& forall|i: int, j: int|
            0 <= i < self.entries@.len() && 0 <= j < self.entries@.len() && i != j ==> (
            #[trigger] self.entries@[i]).0 != (#[trigger] self.entries@[j]).0
    }

    /// No result is live.
    pub fn new() -> (r: Self)
        ensures
            r.wf(),
            r@ == Map::<usize, usize>::empty(),
    {
        LiveResults { entries: Vec::new(), model: Ghost(Map::empty()) }
    }

    fn find(&self, key: usize) -> (r: Option<usize>)
        requires
            self.wf(),
        ensures
            r matches Some(i) ==> i < self.entries@.len() && self.entries@[i as int].0 == key,
            r is None ==> !self@.contains_key(key),
    {
        let mut i: usize = 0;
        while i < self.entries.len()
            invariant
                i <= self.entries@.len(),
                forall|k: int| 0 <= k < i ==> (#[trigger] self.entries@[k]).0 != key,
            decreases self.entries@.len() - i,
        {
            if self.entries[i].0 == key {
                return Some(i);
            }
            i = i + 1;
        }
        None
    }

    /// Whether a result is live under `key`.
    pub fn is_live(&self, key: usize) -> (r: bool)
        requires
            self.wf(),
        ensures
            r == self@.contains_key(key),
    {
        self.find(key).is_some()
    }

    /// Records that the result under `key`, of dimension `n`, now belongs to the host.
    pub fn register(&mut self, key: usize, n: usize) -> (r: Result<(), BridgeError>)
        requires
            old(self).wf(),
        ensures
            final(self).wf(),
            (r, final(self)@) == register_outcome(old(self)@, key, n),
    {
        if let Err(e) = check_dimension(n) {
            return Err(e);
        }
        if self.find(key).is_some() {
            return Err(BridgeError::AlreadyLive { key });
        }
        self.entries.push((key, n));
        self.model = Ghost(self.model@.insert(key, n));
        proof {
            let len = self.entries@.len();
            assert(self.entries@[len - 1] == (key, n));
            assert forall|k: usize| #[trigger] self.model@.contains_key(k) implies exists|i: int|
                0 <= i < self.entries@.len() && (#[trigger] self.entries@[i]).0 == k by {
                if k == key {
                    assert(self.entries@[len - 1].0 == k);
                } else {
                    assert(old(self).model@.contains_key(k));
                    let i = choose|i: int|
                        0 <= i < old(self).entries@.len() && (#[trigger] old(
                            self,
                        ).entries@[i]).0 == k;
                    assert(self.entries@[i] == old(self).entries@[i]);
                }
            }
        }
        Ok(())
    }

    /// Takes the result under `key` back from the host, checking that it is
    /// live and was made with dimension `n`. A refused release changes nothing.
    pub fn release(&mut self, key: usize, n: usize) -> (r: Result<(), BridgeError>)
        requires
            old(self).wf(),
        ensures
            final(self).wf(),
            (r, final(self)@) == release_outcome(old(self)@, key, n),
    {
        let idx = match self.find(key) {
            None => {
                return Err(BridgeError::NotLive { key });
            },
            Some(i) => i,
        };
        let expected = self.entries[idx].1;
        if expected != n {
            return Err(BridgeError::DimensionMismatch { expected, got: n });
        }
        let ghost old_entries = self.entries@;
        self.entries.remove(idx);
        self.model = Ghost(self.model@.remove(key));
        proof {
            assert forall|i: int| 0 <= i < self.entries@.len() implies self.model@.contains_key(
                (#[trigger] self.entries@[i]).0,
            ) && self.model@[self.entries@[i].0] == self.entries@[i].1 by {
                if i < idx {
                    assert(self.entries@[i] == old_entries[i]);
                    assert(old_entries[i].0 != old_entries[idx as int].0);
                } else {
                    assert(self.entries@[i] == old_entries[i + 1]);
                    assert(old_entries[i + 1].0 != old_entries[idx as int].0);
                }
            }
            assert forall|k: usize| #[trigger] self.model@.contains_key(k) implies exists|i: int|
                0 <= i < self.entries@.len() && (#[trigger] self.entries@[i]).0 == k by {
                assert(old(self).model@.contains_key(k));
                let i = choose|i: int|
                    0 <= i < old_entries.len() && (#[trigger] old_entries[i]).0 == k;
                assert(i != idx);
                if i < idx {
                    assert(self.entries@[i] == old_entries[i]);
                } else {
                    assert(self.entries@[i - 1] == old_entries[i]);
                }
            }
            assert forall|i: int, j: int|
                0 <= i < self.entries@.len() && 0 <= j < self.entries@.len() && i != j implies (
                #[trigger] self.entries@[i]).0 != (#[trigger] self.entries@[j]).0 by {
                let oi = if i < idx { i } else { i + 1 };
                let oj = if j < idx { j } else { j + 1 };
                assert(self.entries@[i] == old_entries[oi]);
                assert(self.entries@[j] == old_entries[oj]);
            }
        }
        Ok(())
    }
}

/// Releasing a result twice is refused: once a release has succeeded, every
/// later release of the same key reports that no result is live there,
/// whatever dimension it gives.
pub proof fn lemma_release_twice_rejected(live: Map<usize, usize>, key: usize, n: usize, n2: usize)
    requires
        release_outcome(live, key, n).0 is Ok,
    ensures
        release_outcome(release_outcome(live, key, n).1, key, n2) == (
            Err::<(), BridgeError>(BridgeError::NotLive { key }),
            release_outcome(live, key, n).1,
        ),
{
}

/// Releasing a live result with another dimension than the one it was made
/// with is refused, names both dimensions, and leaves the result live.
pub proof fn lemma_mismatched_release_rejected(live: Map<usize, usize>, key: usize, n: usize)
    requires
        live.contains_key(key),
        live[key] != n,
    ensures
        release_outcome(live, key, n) == (
            Err::<(), BridgeError>(BridgeError::DimensionMismatch { expected: live[key], got: n }),
            live,
        ),
{
}

/// Registering a result of a served dimension under a fresh key and releasing
/// it with the same dimension both succeed and leave the live results as they were.
pub proof fn lemma_register_release_round_trip(live: Map<usize, usize>, key: usize, n: usize)
    requires
        supported_dim(n as int),
        !live.contains_key(key),
    ensures
        register_outcome(live, key, n).0 is Ok,
        release_outcome(register_outcome(live, key, n).1, key, n) == (
            Ok::<(), BridgeError>(()),
            live,
        ),
{
    assert(live.insert(key, n).remove(key) =~= live);
}

} // verus!
