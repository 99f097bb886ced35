use vstd::prelude::*;

verus! {

/// Whether two byte strings are equal.
pub fn bytes_eq(a: &[u8], b: &[u8]) -> (r: bool)
    ensures
        r == (a@ == b@),
{
    if a.len() != b.len() {
        return false;
    }
    let mut i: usize = 0;
    while i < a.len()
        invariant
            a@.len() == b@.len(),
            0 <= i <= a@.len(),
            forall|j: int| 0 <= j < i ==> a@[j] == b@[j],
        decreases a@.len() - i,
    {
        if a[i] != b[i] {
            return false;
        }
        i = i + 1;
    }
    assert(a@ =~= b@);
    true
}

/// The fingerprints of transactions already processed, and those whose
/// write is still on its way.
///
/// A write is queued at delivery and lands later, when the single consumer of
/// the queue drains it: until then the fingerprint is not yet in the history.
/// Entries are never removed.
pub struct TxHistory {
    pub landed: Vec<Vec<u8>>,
    pub queued: Vec<Vec<u8>>,
}

impl TxHistory {
    /// The fingerprints that have landed.
    pub open spec fn entries(&self) -> Set<Seq<u8>> {
        self.landed@.map_values(|v: Vec<u8>| v@).to_set()
    }

    /// The fingerprints waiting to land, oldest first.
    pub open spec fn pending(&self) -> Seq<Seq<u8>> {
        self.queued@.map_values(|v: Vec<u8>| v@)
    }

    /// The history once every queued write has landed.
    pub open spec fn drained(&self) -> Set<Seq<u8>> {
        self.entries() + self.pending().to_set()
    }

    pub fn new() -> (r: TxHistory)
        ensures
            r.entries() == Set::<Seq<u8>>::empty(),
            r.pending() == Seq::<Seq<u8>>::empty(),
    {
        let r = TxHistory { landed: Vec::new(), queued: Vec::new() };
        assert(r.entries() =~= Set::<Seq<u8>>::empty());
        assert(r.pending() =~= Seq::<Seq<u8>>::empty());
        r
    }

    /// A history restored from persisted fingerprints, with nothing queued.
    pub fn from_entries(landed: Vec<Vec<u8>>) -> (r: TxHistory)
        ensures
            r.entries() == landed@.map_values(|v: Vec<u8>| v@).to_set(),
            r.pending() == Seq::<Seq<u8>>::empty(),
    {
        let r = TxHistory { landed, queued: Vec::new() };
        assert(r.pending() =~= Seq::<Seq<u8>>::empty());
        r
    }

    /// Whether `fingerprint` has landed.
    pub fn contains_key(&self, fingerprint: &[u8]) -> (r: bool)
        ensures
            r == self.entries().contains(fingerprint@),
    {
        let mut i: usize = 0;
        while i < self.landed.len()
            invariant
                0 <= i <= self.landed@.len(),
                forall|j: int| 0 <= j < i ==> self.landed@[j]@ != fingerprint@,
            decreases self.landed@.len() - i,
        {
            if bytes_eq(self.landed[i].as_slice(), fingerprint) {
                assert(self.landed@.map_values(|v: Vec<u8>| v@)[i as int] == fingerprint@);
                return true;
            }
            i = i + 1;
        }
        assert(!self.landed@.map_values(|v: Vec<u8>| v@).contains(fingerprint@));
        false
    }

    /// Queues a write of `fingerprint`. It returns at once; the history does
    /// not hold the fingerprint until the queue is drained.
    pub fn schedule(&mut self, fingerprint: Vec<u8>)
        ensures
            final(self).entries() == old(self).entries(),
            final(self).pending() == old(self).pending().push(fingerprint@),
            final(self).drained() == old(self).drained().insert(fingerprint@),
    {
        let ghost fp = fingerprint@;
        self.queued.push(fingerprint);
        assert(self.pending() =~= old(self).pending().push(fp));
        proof {
            lemma_push_to_set(old(self).pending(), fp);
        }
        assert(self.drained() =~= old(self).drained().insert(fp));
    }

    /// Lands every queued write, oldest first, and empties the queue.
    pub fn drain(&mut self)
        ensures
            final(self).entries() == old(self).drained(),
            final(self).pending() == Seq::<Seq<u8>>::empty(),
    {
        let mut queued: Vec<Vec<u8>> = Vec::new();
        std::mem::swap(&mut queued, &mut self.queued);
        let ghost start = self.entries();
        let ghost waiting = queued@.map_values(|v: Vec<u8>| v@);
        assert(waiting == old(self).pending());
        let mut i: usize = 0;
        while i < queued.len()
            invariant
                0 <= i <= queued@.len(),
                waiting == queued@.map_values(|v: Vec<u8>| v@),
                self.queued@.len() == 0,
                self.entries() == start + waiting.subrange(0, i as int).to_set(),
            decreases queued@.len() - i,
        {
            let fp = queued[i].clone();
            let ghost before = self.entries();
            let ghost lv = self.landed@.map_values(|v: Vec<u8>| v@);
            assert(waiting[i as int] == fp@);
            assert(waiting.subrange(0, i + 1) =~= waiting.subrange(0, i as int).push(fp@));
            if !self.contains_key(fp.as_slice()) {
                self.landed.push(fp);
                assert(self.landed@.map_values(|v: Vec<u8>| v@) =~= lv.push(fp@));
                proof {
                    lemma_push_to_set(lv, fp@);
                }
            } else {
                assert(before.insert(fp@) =~= before);
            }
            proof {
                lemma_push_to_set(waiting.subrange(0, i as int), fp@);
            }
            assert(self.entries() =~= start + waiting.subrange(0, i + 1).to_set());
            i = i + 1;
        }
        assert(waiting.subrange(0, i as int) =~= waiting);
        assert(self.pending() =~= Seq::<Seq<u8>>::empty());
    }
}

/// A queued write is never lost: once the queue drains, the history holds
/// every fingerprint it held before and every one that was queued.
pub proof fn lemma_scheduled_fingerprint_lands(h: TxHistory, fingerprint: Seq<u8>)
    requires
        h.pending().contains(fingerprint),
    ensures
        h.drained().contains(fingerprint),
        h.entries().subset_of(h.drained()),
{
    let k = choose|k: int| 0 <= k < h.pending().len() && h.pending()[k] == fingerprint;
    assert(h.pending().to_set().contains(fingerprint));
}

proof fn lemma_push_to_set(s: Seq<Seq<u8>>, x: Seq<u8>)
    ensures
        s.push(x).to_set() == s.to_set().insert(x),
{
    assert(s.push(x).to_set() =~= s.to_set().insert(x)) by {
        assert forall|y: Seq<u8>| #[trigger] s.push(x).to_set().contains(y) <==> s.to_set().insert(x).contains(y) by {
            if s.push(x).contains(y) && y != x {
                let k = choose|k: int| 0 <= k < s.push(x).len() && s.push(x)[k] == y;
                assert(s[k] == y);
            }
            if s.contains(y) {
                let k = choose|k: int| 0 <= k < s.len() && s[k] == y;
                assert(s.push(x)[k] == y);
            }
            if y == x {
                assert(s.push(x)[s.len() as int] == y);
            }
        }
    }
}

} // verus!
