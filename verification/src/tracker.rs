use vstd::prelude::*;

verus! {

/// A tracked block: its content identifier and its size in bytes.
pub type TrackedView = Seq<(Seq<char>, u64)>;

/// Whether `s` holds an entry for the block `k`.
pub open spec fn has_key(s: TrackedView, k: Seq<char>) -> bool {
    exists|i: int| 0 <= i < s.len() && #[trigger] s[i].0 == k
}

/// The position of the entry for the block `k` in `s`.
pub open spec fn key_index(s: TrackedView, k: Seq<char>) -> int {
    choose|i: int| 0 <= i < s.len() && #[trigger] s[i].0 == k
}

/// No block is tracked twice.
pub open spec fn keys_distinct(s: TrackedView) -> bool {
    forall|i: int, j: int| 0 <= i < s.len() && 0 <= j < s.len() && i != j ==> #[trigger] s[i].0 != #[trigger] s[j].0
}

/// No identifier occurs twice.
pub open spec fn no_dups(s: Seq<Seq<char>>) -> bool {
    forall|i: int, j: int| 0 <= i < s.len() && 0 <= j < s.len() && i != j ==> #[trigger] s[i] != #[trigger] s[j]
}

/// Tracking a block records its size the first time; a block already tracked keeps its size.
pub open spec fn track_spec(s: TrackedView, k: Seq<char>, size: u64) -> TrackedView {
    if has_key(s, k) {
        s
    } else {
        s.push((k, size))
    }
}

/// Untracking a block forgets it.
pub open spec fn untrack_spec(s: TrackedView, k: Seq<char>) -> TrackedView {
    if has_key(s, k) {
        s.remove(key_index(s, k))
    } else {
        s
    }
}

/// Marking a block for deletion adds it to the pending set once.
pub open spec fn delete_spec(p: Seq<Seq<char>>, k: Seq<char>) -> Seq<Seq<char>> {
    if p.contains(k) {
        p
    } else {
        p.push(k)
    }
}

/// The total size of the tracked blocks.
pub open spec fn sizes_sum(s: TrackedView) -> int
    decreases s.len(),
{
    if s.len() == 0 {
        0
    } else {
        sizes_sum(s.drop_last()) + s.last().1
    }
}

/// Removing one entry lowers the total by that entry's size.
pub proof fn lemma_sum_remove(s: TrackedView, i: int)
    requires
        0 <= i < s.len(),
    ensures
        sizes_sum(s) == sizes_sum(s.remove(i)) + s[i].1,
    decreases s.len(),
{
    if i == s.len() - 1 {
        assert(s.remove(i) =~= s.drop_last());
    } else {
        lemma_sum_remove(s.drop_last(), i);
        assert(s.remove(i).drop_last() =~= s.drop_last().remove(i));
    }
}

/// The blocks that a Drive's store keeps: those pending deletion on the remote,
/// and those stored locally with their sizes.
#[derive(Debug)]
pub struct BlockTracker {
    pending_deletion: Vec<String>,
    stored: Vec<(String, u64)>,
}

impl BlockTracker {
    /// The blocks pending deletion.
    pub closed spec fn pending(&self) -> Seq<Seq<char>> {
        self.pending_deletion@.map_values(|c: String| c@)
    }

    /// The tracked blocks with their sizes.
    pub closed spec fn tracked_view(&self) -> TrackedView {
        self.stored@.map_values(|p: (String, u64)| (p.0@, p.1))
    }

    /// Neither list holds an identifier twice.
    #[verifier::type_invariant]
    closed spec fn wf(&self) -> bool {
        &&& no_dups(self.pending())
        &&& keys_distinct(self.tracked_view())
    }

    /// A tracker with nothing in it.
    pub fn new() -> (res: BlockTracker)
        ensures
            res.pending() == Seq::<Seq<char>>::empty(),
            res.tracked_view() == Seq::<(Seq<char>, u64)>::empty(),
    {
        let res = BlockTracker { pending_deletion: Vec::new(), stored: Vec::new() };
        assert(res.pending() =~= Seq::<Seq<char>>::empty());
        assert(res.tracked_view() =~= Seq::<(Seq<char>, u64)>::empty());
        res
    }

    /// Forgets every block pending deletion.
    pub fn clear_deleted(&mut self)
        ensures
            final(self).pending() == Seq::<Seq<char>>::empty(),
            final(self).tracked_view() == old(self).tracked_view(),
    {
        proof {
            use_type_invariant(&*self);
        }
        self.pending_deletion = Vec::new();
        assert(self.pending() =~= Seq::<Seq<char>>::empty());
    }

    /// Marks a block as pending deletion.
    pub fn delete(&mut self, cid: String)
        ensures
            final(self).pending() == delete_spec(old(self).pending(), cid@),
            final(self).tracked_view() == old(self).tracked_view(),
            no_dups(final(self).pending()),
    {
        proof {
            use_type_invariant(&*self);
        }
        let ghost p = self.pending();
        let n = self.pending_deletion.len();
        let mut i: usize = 0;
        while i < n
            invariant
                n == self.pending_deletion.len(),
                p == self.pending(),
                no_dups(p),
                keys_distinct(self.tracked_view()),
                self.tracked_view() == old(self).tracked_view(),
                0 <= i <= n,
                forall|j: int| 0 <= j < i ==> p[j] != cid@,
            decreases n - i,
        {
            if self.pending_deletion[i] == cid {
                assert(p.contains(cid@)) by {
                    assert(p[i as int] == cid@);
                }
                return;
            }
            i = i + 1;
        }
        assert(!p.contains(cid@));
        let mut v: Vec<String> = Vec::new();
        std::mem::swap(&mut v, &mut self.pending_deletion);
        v.push(cid);
        assert(v@.map_values(|c: String| c@) =~= p.push(cid@));
        self.pending_deletion = v;
    }

    /// The blocks pending deletion.
    pub fn deleted_cids(&self) -> (res: Vec<String>)
        ensures
            res@.map_values(|c: String| c@) == self.pending(),
            no_dups(res@.map_values(|c: String| c@)),
    {
        proof {
            use_type_invariant(self);
        }
        self.pending_deletion.clone()
    }

    /// Starts tracking a block with its size; a block already tracked keeps the size it had.
    pub fn track(&mut self, cid: String, size: u64)
        ensures
            final(self).tracked_view() == track_spec(old(self).tracked_view(), cid@, size),
            final(self).pending() == old(self).pending(),
    {
        proof {
            use_type_invariant(&*self);
        }
        let ghost t = self.tracked_view();
        let n = self.stored.len();
        let mut i: usize = 0;
        while i < n
            invariant
                n == self.stored.len(),
                t == self.tracked_view(),
                keys_distinct(t),
                no_dups(self.pending()),
                self.pending() == old(self).pending(),
                0 <= i <= n,
                forall|j: int| 0 <= j < i ==> t[j].0 != cid@,
            decreases n - i,
        {
            if self.stored[i].0 == cid {
                assert(t[i as int].0 == cid@);
                assert(has_key(t, cid@));
                return;
            }
            i = i + 1;
        }
        assert(!has_key(t, cid@));
        let mut v: Vec<(String, u64)> = Vec::new();
        std::mem::swap(&mut v, &mut self.stored);
        v.push((cid, size));
        assert(v@.map_values(|p: (String, u64)| (p.0@, p.1)) =~= t.push((cid@, size)));
        self.stored = v;
    }

    /// The tracked blocks with their sizes.
    pub fn tracked_blocks(&self) -> (res: Vec<(String, u64)>)
        ensures
            res@.map_values(|p: (String, u64)| (p.0@, p.1)) == self.tracked_view(),
    {
        let mut res: Vec<(String, u64)> = Vec::new();
        let n = self.stored.len();
        for i in 0..n
            invariant
                n == self.stored@.len(),
                res@.map_values(|p: (String, u64)| (p.0@, p.1)) =~= self.tracked_view().take(i as int),
        {
            let ghost before = res@.map_values(|p: (String, u64)| (p.0@, p.1));
            let block = (self.stored[i].0.clone(), self.stored[i].1);
            res.push(block);
            assert(res@.map_values(|p: (String, u64)| (p.0@, p.1)) =~= before.push(self.tracked_view()[i as int]));
            assert(self.tracked_view().take(i + 1) =~= self.tracked_view().take(i as int).push(self.tracked_view()[i as int]));
        }
        assert(self.tracked_view().take(n as int) =~= self.tracked_view());
        res
    }

    /// The identifiers of the tracked blocks.
    pub fn tracked_cids(&self) -> (res: Vec<String>)
        ensures
            res@.map_values(|c: String| c@) == self.tracked_view().map_values(|p: (Seq<char>, u64)| p.0),
    {
        let mut res: Vec<String> = Vec::new();
        let n = self.stored.len();
        for i in 0..n
            invariant
                n == self.stored.len(),
                res@.len() == i,
                forall|j: int| 0 <= j < i ==> #[trigger] res@[j]@ == self.stored@[j].0@,
        {
            res.push(self.stored[i].0.clone());
        }
        assert(res@.map_values(|c: String| c@) =~= self.tracked_view().map_values(|p: (Seq<char>, u64)| p.0));
        res
    }

    /// The total size of the tracked blocks.
    pub fn tracked_size(&self) -> (res: u64)
        requires
            sizes_sum(self.tracked_view()) <= u64::MAX,
        ensures
            res == sizes_sum(self.tracked_view()),
    {
        let ghost t = self.tracked_view();
        let n = self.stored.len();
        let mut total: u64 = 0;
        let mut i: usize = 0;
        while i < n
            invariant
                n == self.stored.len(),
                t == self.tracked_view(),
                t.len() == n,
                0 <= i <= n,
                total == sizes_sum(t.take(i as int)),
                sizes_sum(t) <= u64::MAX,
            decreases n - i,
        {
            assert(t.take(i + 1).drop_last() =~= t.take(i as int));
            proof {
                lemma_sum_prefix_le(t, i + 1);
            }
            total = total + self.stored[i].1;
            i = i + 1;
        }
        assert(t.take(n as int) =~= t);
        total
    }

    /// Stops tracking a block.
    pub fn untrack(&mut self, cid: &String)
        ensures
            final(self).tracked_view() == untrack_spec(old(self).tracked_view(), cid@),
            final(self).pending() == old(self).pending(),
    {
        proof {
            use_type_invariant(&*self);
        }
        let ghost t = self.tracked_view();
        let n = self.stored.len();
        let mut i: usize = 0;
        while i < n
            invariant
                n == self.stored.len(),
                t == self.tracked_view(),
                keys_distinct(t),
                no_dups(self.pending()),
                t == old(self).tracked_view(),
                self.pending() == old(self).pending(),
                0 <= i <= n,
                forall|j: int| 0 <= j < i ==> t[j].0 != cid@,
            decreases n - i,
        {
            if self.stored[i].0 == *cid {
                assert(t[i as int].0 == cid@);
                assert(has_key(t, cid@));
                let ghost k = key_index(t, cid@);
                assert(k == i);
                let mut v: Vec<(String, u64)> = Vec::new();
                std::mem::swap(&mut v, &mut self.stored);
                v.remove(i);
                assert(v@.map_values(|p: (String, u64)| (p.0@, p.1)) =~= t.remove(i as int));
                self.stored = v;
                return;
            }
            i = i + 1;
        }
        assert(!has_key(t, cid@));
    }
}

/// A prefix of the tracked blocks never weighs more than all of them.
pub proof fn lemma_sum_prefix_le(t: TrackedView, k: int)
    requires
        0 <= k <= t.len(),
    ensures
        sizes_sum(t.take(k)) <= sizes_sum(t),
    decreases t.len() - k,
{
    if k < t.len() {
        lemma_sum_prefix_le(t, k + 1);
        assert(t.take(k + 1).drop_last() =~= t.take(k));
    } else {
        assert(t.take(k) =~= t);
    }
}


/// Tracks the blocks of one Drive for syncing; the tracker is saved under the Drive's name
/// after each change to the pending deletions or to the tracked blocks.
#[derive(Debug)]
pub struct DiskSyncTracker {
    pub drive_id: String,
    pub blocks: BlockTracker,
}

impl DiskSyncTracker {
    /// A tracker for the Drive `drive_id` with nothing in it.
    pub fn new(drive_id: &String) -> (res: DiskSyncTracker)
        ensures
            res.drive_id@ == drive_id@,
            res.blocks.pending() == Seq::<Seq<char>>::empty(),
            res.blocks.tracked_view() == Seq::<(Seq<char>, u64)>::empty(),
    {
        DiskSyncTracker { drive_id: drive_id.clone(), blocks: BlockTracker::new() }
    }

    /// Forgets every block pending deletion.
    pub fn clear_deleted(&mut self)
        ensures
            final(self).blocks.pending() == Seq::<Seq<char>>::empty(),
            final(self).blocks.tracked_view() == old(self).blocks.tracked_view(),
            final(self).drive_id@ == old(self).drive_id@,
    {
        self.blocks.clear_deleted();
    }

    /// Marks a block as pending deletion.
    pub fn delete(&mut self, cid: String)
        ensures
            final(self).blocks.pending() == delete_spec(old(self).blocks.pending(), cid@),
            no_dups(final(self).blocks.pending()),
            final(self).blocks.tracked_view() == old(self).blocks.tracked_view(),
            final(self).drive_id@ == old(self).drive_id@,
    {
        self.blocks.delete(cid);
    }

    /// The blocks pending deletion.
    pub fn deleted_cids(&self) -> (res: Vec<String>)
        ensures
            res@.map_values(|c: String| c@) == self.blocks.pending(),
            no_dups(res@.map_values(|c: String| c@)),
    {
        self.blocks.deleted_cids()
    }

    /// Starts tracking a block with its size; a block already tracked keeps its size.
    pub fn track(&mut self, cid: String, size: u64)
        ensures
            final(self).blocks.tracked_view() == track_spec(old(self).blocks.tracked_view(), cid@, size),
            final(self).blocks.pending() == old(self).blocks.pending(),
            final(self).drive_id@ == old(self).drive_id@,
    {
        self.blocks.track(cid, size);
    }

    /// The identifiers of the tracked blocks.
    pub fn tracked_cids(&self) -> (res: Vec<String>)
        ensures
            res@.map_values(|c: String| c@) == self.blocks.tracked_view().map_values(|p: (Seq<char>, u64)| p.0),
    {
        self.blocks.tracked_cids()
    }

    /// The total size of the tracked blocks.
    pub fn tracked_size(&self) -> (res: u64)
        requires
            sizes_sum(self.blocks.tracked_view()) <= u64::MAX,
        ensures
            res == sizes_sum(self.blocks.tracked_view()),
    {
        self.blocks.tracked_size()
    }

    /// Stops tracking a block.
    pub fn untrack(&mut self, cid: &String)
        ensures
            final(self).blocks.tracked_view() == untrack_spec(old(self).blocks.tracked_view(), cid@),
            final(self).blocks.pending() == old(self).blocks.pending(),
            final(self).drive_id@ == old(self).drive_id@,
    {
        self.blocks.untrack(cid);
    }
}

/// Tracks blocks in memory; it is saved in CBOR form.
#[derive(Debug)]
pub struct CborSyncTracker {
    pub blocks: BlockTracker,
}

impl CborSyncTracker {
    /// A tracker with nothing in it.
    pub fn new() -> (res: CborSyncTracker)
        ensures
            res.blocks.pending() == Seq::<Seq<char>>::empty(),
            res.blocks.tracked_view() == Seq::<(Seq<char>, u64)>::empty(),
    {
        CborSyncTracker { blocks: BlockTracker::new() }
    }

    /// Forgets every block pending deletion.
    pub fn clear_deleted(&mut self)
        ensures
            final(self).blocks.pending() == Seq::<Seq<char>>::empty(),
            final(self).blocks.tracked_view() == old(self).blocks.tracked_view(),
    {
        self.blocks.clear_deleted();
    }

    /// Marks a block as pending deletion.
    pub fn delete(&mut self, cid: String)
        ensures
            final(self).blocks.pending() == delete_spec(old(self).blocks.pending(), cid@),
            no_dups(final(self).blocks.pending()),
            final(self).blocks.tracked_view() == old(self).blocks.tracked_view(),
    {
        self.blocks.delete(cid);
    }

    /// The blocks pending deletion.
    pub fn deleted_cids(&self) -> (res: Vec<String>)
        ensures
            res@.map_values(|c: String| c@) == self.blocks.pending(),
            no_dups(res@.map_values(|c: String| c@)),
    {
        self.blocks.deleted_cids()
    }

    /// Starts tracking a block with its size; a block already tracked keeps its size.
    pub fn track(&mut self, cid: String, size: u64)
        ensures
            final(self).blocks.tracked_view() == track_spec(old(self).blocks.tracked_view(), cid@, size),
            final(self).blocks.pending() == old(self).blocks.pending(),
    {
        self.blocks.track(cid, size);
    }

    /// The identifiers of the tracked blocks.
    pub fn tracked_cids(&self) -> (res: Vec<String>)
        ensures
            res@.map_values(|c: String| c@) == self.blocks.tracked_view().map_values(|p: (Seq<char>, u64)| p.0),
    {
        self.blocks.tracked_cids()
    }

    /// The total size of the tracked blocks.
    pub fn tracked_size(&self) -> (res: u64)
        requires
            sizes_sum(self.blocks.tracked_view()) <= u64::MAX,
        ensures
            res == sizes_sum(self.blocks.tracked_view()),
    {
        self.blocks.tracked_size()
    }

    /// Stops tracking a block.
    pub fn untrack(&mut self, cid: &String)
        ensures
            final(self).blocks.tracked_view() == untrack_spec(old(self).blocks.tracked_view(), cid@),
            final(self).blocks.pending() == old(self).blocks.pending(),
    {
        self.blocks.untrack(cid);
    }
}

/// Tracking a block a second time keeps the size recorded the first time.
pub proof fn law_track_keeps_first_size(s: TrackedView, k: Seq<char>, a: u64, b: u64)
    ensures
        track_spec(track_spec(s, k, a), k, b) == track_spec(s, k, a),
{
    if !has_key(s, k) {
        let t = s.push((k, a));
        assert(t[s.len() as int].0 == k);
    }
}

/// Untracking a block that was tracked just now, for the first time, restores the tracker.
pub proof fn law_untrack_undoes_track(s: TrackedView, k: Seq<char>, a: u64)
    requires
        keys_distinct(s),
        !has_key(s, k),
    ensures
        untrack_spec(track_spec(s, k, a), k) == s,
{
    let t = s.push((k, a));
    assert(t[s.len() as int].0 == k);
    let i = key_index(t, k);
    if i != s.len() {
        assert(t[i] == s[i]);
        assert(has_key(s, k));
    }
    assert(t.remove(s.len() as int) =~= s);
}

/// Tracking a new block adds its size to the total; tracking a known one changes nothing.
pub proof fn law_track_total(s: TrackedView, k: Seq<char>, a: u64)
    ensures
        sizes_sum(track_spec(s, k, a)) == sizes_sum(s) + (if has_key(s, k) { 0 } else { a as int }),
{
    if !has_key(s, k) {
        assert(s.push((k, a)).drop_last() =~= s);
    }
}

/// Untracking a block takes its size off the total.
pub proof fn law_untrack_total(s: TrackedView, k: Seq<char>)
    ensures
        sizes_sum(untrack_spec(s, k)) == sizes_sum(s) - (if has_key(s, k) { s[key_index(s, k)].1 as int } else { 0 }),
{
    if has_key(s, k) {
        lemma_sum_remove(s, key_index(s, k));
    }
}

/// Marking a block for deletion twice is the same as marking it once, and the block is then pending.
pub proof fn law_delete_idempotent(p: Seq<Seq<char>>, k: Seq<char>)
    ensures
        delete_spec(delete_spec(p, k), k) == delete_spec(p, k),
        delete_spec(p, k).contains(k),
{
    if !p.contains(k) {
        assert(p.push(k)[p.len() as int] == k);
    }
}
} // verus!
