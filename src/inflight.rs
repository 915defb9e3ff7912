use vstd::prelude::*;

verus! {

/// Why a control block could not be put in flight.
#[derive(Debug)]
pub enum SubmitError<T> {
    /// Every permit is taken: `depth` blocks are already in flight. The block comes back.
    Full(T),
    /// Flushing the ring failed earlier; nothing more is submitted. The block comes back.
    RingDead(T),
}

/// The driver's table of control blocks whose completion has not yet been reaped.
///
/// Each block is identified by the cookie written into its submission entry's
/// user-data field, unique among the blocks in flight. At most `depth` blocks
/// are in flight: the number of permits left is `depth` minus that count.
pub struct InFlight<T> {
    slots: Vec<Option<T>>,
    free: Vec<usize>,
    live: usize,
    dead: bool,
    blocks: Ghost<Map<u64, T>>,
}

impl<T> View for InFlight<T> {
    type V = Map<u64, T>;

    /// The control blocks in flight, by cookie.
    closed spec fn view(&self) -> Map<u64, T> {
        self.blocks@
    }
}

impl<T> InFlight<T> {
    /// The submission-queue depth: the number of permits.
    pub closed spec fn spec_depth(&self) -> nat {
        self.slots@.len()
    }

    /// Whether a failed flush has left the ring unusable.
    pub closed spec fn spec_dead(&self) -> bool {
        self.dead
    }

    /// The table's internal bookkeeping is consistent.
    pub closed spec fn wf(&self) -> bool {
        let m = self.blocks@;
        &&& m.dom().finite()
        &&& self.live == m.len()
        &&& self.live + self.free@.len() == self.slots@.len()
        &&& forall|k: u64| #[trigger]
            m.contains_key(k) <==> (k as int) < self.slots@.len() && self.slots@[k as int] is Some
        &&& forall|k: u64| #[trigger] m.contains_key(k) ==> m[k] == self.slots@[k as int]->Some_0
        &&& forall|j: int|
            0 <= j < self.free@.len() ==> (#[trigger] self.free@[j] as int) < self.slots@.len()
                && self.slots@[self.free@[j] as int] is None
        &&& forall|a: int, b: int|
            0 <= a < b < self.free@.len() ==> #[trigger] self.free@[a] != #[trigger] self.free@[b]
    }

    /// A table for a ring of `depth` entries, with nothing in flight and all permits free.
    pub fn new(depth: usize) -> (r: Self)
        ensures
            r.wf(),
            r@ == Map::<u64, T>::empty(),
            r.spec_depth() == depth,
            !r.spec_dead(),
    {
        let mut slots: Vec<Option<T>> = Vec::new();
        let mut free: Vec<usize> = Vec::new();
        let mut i: usize = 0;
        while i < depth
            invariant
                i <= depth,
                slots@.len() == i,
                free@.len() == i,
                forall|j: int| 0 <= j < i ==> #[trigger] slots@[j] is None,
                forall|j: int| 0 <= j < i ==> #[trigger] free@[j] as int == depth - 1 - j,
            decreases depth - i,
        {
            slots.push(None);
            free.push(depth - 1 - i);
            i = i + 1;
        }
        let r = InFlight { slots, free, live: 0, dead: false, blocks: Ghost(Map::empty()) };
        assert forall|j: int| 0 <= j < r.free@.len() implies (#[trigger] r.free@[j] as int) < r.slots@.len()
            && r.slots@[r.free@[j] as int] is None by {
            assert(r.free@[j] as int == depth - 1 - j);
        }
        r
    }

    /// The submission-queue depth.
    pub fn depth(&self) -> (r: usize)
        requires
            self.wf(),
        ensures
            r == self.spec_depth(),
    {
        self.slots.len()
    }

    /// The number of control blocks in flight.
    pub fn len(&self) -> (r: usize)
        requires
            self.wf(),
        ensures
            r == self@.len(),
    {
        self.live
    }

    /// The number of permits left.
    pub fn available(&self) -> (r: usize)
        requires
            self.wf(),
        ensures
            r == self.spec_depth() - self@.len(),
    {
        self.free.len()
    }

    /// Whether a failed flush has left the ring unusable.
    pub fn is_dead(&self) -> (r: bool)
        ensures
            r == self.spec_dead(),
    {
        self.dead
    }

    /// Records that flushing the ring failed: every later submission is refused.
    pub fn mark_dead(&mut self)
        requires
            old(self).wf(),
        ensures
            final(self).wf(),
            final(self)@ == old(self)@,
            final(self).spec_depth() == old(self).spec_depth(),
            final(self).spec_dead(),
    {
        self.dead = true;
    }

    /// Takes a permit and puts `block` in flight under a fresh cookie, to be
    /// written into the submission entry's user-data field.
    ///
    /// Refused when the ring is dead, else when all `depth` permits are taken.
    pub fn submit(&mut self, block: T) -> (r: Result<u64, SubmitError<T>>)
        requires
            old(self).wf(),
        ensures
            final(self).wf(),
            final(self).spec_depth() == old(self).spec_depth(),
            final(self).spec_dead() == old(self).spec_dead(),
            old(self).spec_dead() ==> r == Err::<u64, SubmitError<T>>(SubmitError::RingDead(block)),
            !old(self).spec_dead() && old(self)@.len() >= old(self).spec_depth() ==> r == Err::<
                u64,
                SubmitError<T>,
            >(SubmitError::Full(block)),
            r is Err ==> final(self)@ == old(self)@,
            !old(self).spec_dead() && old(self)@.len() < old(self).spec_depth() ==> r is Ok,
            r matches Ok(c) ==> !old(self)@.contains_key(c) && final(self)@ == old(self)@.insert(
                c,
                block,
            ),
    {
        if self.dead {
            return Err(SubmitError::RingDead(block));
        }
        if self.free.len() == 0 {
            return Err(SubmitError::Full(block));
        }
        let i = self.free.pop().unwrap();
        proof {
            assert(self.free@ =~= old(self).free@.drop_last());
            assert(old(self).free@[old(self).free@.len() - 1] == i);
            assert(!self.blocks@.contains_key(i as u64));
        }
        let cookie = i as u64;
        let depth = self.slots.len();
        assert(self.live < depth);
        self.slots.set(i, Some(block));
        self.live = self.live + 1;
        proof {
            let old_m = self.blocks@;
            self.blocks@ = old_m.insert(cookie, block);
            assert(self.blocks@.dom() =~= old_m.dom().insert(cookie));
            assert forall|j: int| 0 <= j < self.free@.len() implies (#[trigger] self.free@[j] as int)
                < self.slots@.len() && self.slots@[self.free@[j] as int] is None by {
                assert(old(self).free@[j] == self.free@[j]);
                assert(self.free@[j] != i);
            }
            assert forall|k: u64| #[trigger] self.blocks@.contains_key(k) <==> (k as int) < self.slots@.len()
                && self.slots@[k as int] is Some by {
                if k != cookie {
                    assert(old(self).blocks@.contains_key(k) == self.blocks@.contains_key(k));
                }
            }
            assert forall|k: u64| #[trigger] self.blocks@.contains_key(k) implies self.blocks@[k]
                == self.slots@[k as int]->Some_0 by {
                if k != cookie {
                    assert(old(self).blocks@.contains_key(k));
                }
            }
        }
        Ok(cookie)
    }

    /// Reaps the completion whose user-data is `cookie`: the control block
    /// leaves the table, its permit is released, and the block is handed back
    /// to be completed and dropped. A cookie with no block in flight yields
    /// nothing and changes nothing.
    ///
    /// The block comes back as the value that was handed in. The table holds
    /// blocks of any type `T` and reasons about nothing inside them.
    pub fn complete(&mut self, cookie: u64) -> (r: Option<T>)
        requires
            old(self).wf(),
        ensures
            final(self).wf(),
            final(self).spec_depth() == old(self).spec_depth(),
            final(self).spec_dead() == old(self).spec_dead(),
            old(self)@.contains_key(cookie) ==> r == Some(old(self)@[cookie]) && final(self)@
                == old(self)@.remove(cookie),
            !old(self)@.contains_key(cookie) ==> r is None && final(self)@ == old(self)@,
    {
        if cookie >= self.slots.len() as u64 {
            return None;
        }
        let i = cookie as usize;
        let mut taken: Option<T> = None;
        self.slots.set_and_swap(i, &mut taken);
        match taken {
            None => {
                proof {
                    assert(self.slots@ =~= old(self).slots@);
                }
                None
            },
            Some(block) => {
                proof {
                    assert(old(self).slots@[i as int] is Some);
                    assert(old(self).blocks@.contains_key(cookie));
                    assert(self.live > 0);
                    assert forall|j: int| 0 <= j < self.free@.len() implies self.free@[j] != i by {
                        assert(old(self).slots@[self.free@[j] as int] is None);
                    }
                }
                self.free.push(i);
                self.live = self.live - 1;
                proof {
                    let old_m = self.blocks@;
                    self.blocks@ = old_m.remove(cookie);
                    assert forall|j: int| 0 <= j < self.free@.len() implies (#[trigger] self.free@[j]
                        as int) < self.slots@.len() && self.slots@[self.free@[j] as int] is None by {
                        if j < old(self).free@.len() {
                            assert(self.free@[j] == old(self).free@[j]);
                        }
                    }
                    assert forall|a: int, b: int|
                        0 <= a < b < self.free@.len() implies #[trigger] self.free@[a]
                        != #[trigger] self.free@[b] by {
                        if b == self.free@.len() - 1 {
                            assert(old(self).slots@[self.free@[a] as int] is None);
                        } else {
                            assert(self.free@[a] == old(self).free@[a]);
                            assert(self.free@[b] == old(self).free@[b]);
                        }
                    }
                    assert forall|k: u64| #[trigger] self.blocks@.contains_key(k) <==> (k as int)
                        < self.slots@.len() && self.slots@[k as int] is Some by {
                        if k != cookie {
                            assert(old(self).blocks@.contains_key(k) == self.blocks@.contains_key(k));
                        }
                    }
                    assert forall|k: u64| #[trigger] self.blocks@.contains_key(k) implies self.blocks@[k]
                        == self.slots@[k as int]->Some_0 by {
                        assert(k != cookie);
                        assert(old(self).blocks@.contains_key(k));
                    }
                }
                Some(block)
            },
        }
    }
}

/// However submissions and completions interleave, a well-formed table never
/// holds more control blocks than the ring has entries.
pub proof fn lemma_in_flight_bounded<T>(t: &InFlight<T>)
    requires
        t.wf(),
    ensures
        t@.len() <= t.spec_depth(),
        t@.dom().finite(),
{
}

/// Submitting a block under a fresh cookie and then completing that cookie
/// hands back the very block, and leaves the table as it was before.
pub proof fn lemma_same_block_returned<T>(before: Map<u64, T>, cookie: u64, block: T)
    requires
        !before.contains_key(cookie),
    ensures
        before.insert(cookie, block).contains_key(cookie),
        before.insert(cookie, block)[cookie] == block,
        before.insert(cookie, block).remove(cookie) == before,
{
    assert(before.insert(cookie, block).remove(cookie) =~= before);
}

/// Reaping a cookie in flight frees its control block and its permit exactly
/// once: afterwards the cookie is no longer in flight (a second completion of it
/// yields nothing), one block fewer is in flight and one permit more is free.
pub proof fn lemma_reaped_once<T>(t: &InFlight<T>, cookie: u64)
    requires
        t.wf(),
        t@.contains_key(cookie),
    ensures
        !t@.remove(cookie).contains_key(cookie),
        t@.remove(cookie).len() == t@.len() - 1,
        t.spec_depth() - t@.remove(cookie).len() == t.spec_depth() - t@.len() + 1,
{
}

/// Submissions beyond the depth wait for reaping: a full table refuses more
/// blocks, and reaping any block in flight leaves room for one more.
pub proof fn lemma_room_after_reap<T>(t: &InFlight<T>, cookie: u64)
    requires
        t.wf(),
        t@.len() == t.spec_depth(),
        t@.contains_key(cookie),
    ensures
        t@.remove(cookie).len() < t.spec_depth(),
{
}

} // verus!
