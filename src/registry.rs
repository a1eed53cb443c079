//! The registry of open connections: a set of connection ids, each present
//! from the end of its opening handshake until its close is processed.
use vstd::prelude::*;

verus! {

/// A removal from a sequence without duplicates removes exactly that element
/// from the set of its elements.
proof fn lemma_remove_from_unique(s: Seq<u64>, i: int)
    requires
        s.no_duplicates(),
        0 <= i < s.len(),
    ensures
        s.remove(i).no_duplicates(),
        s.remove(i).to_set() == s.to_set().remove(s[i]),
        s.remove(i).len() == s.len() - 1,
{
    let r = s.remove(i);
    assert forall|a: int, b: int| 0 <= a < b < r.len() implies r[a] != r[b] by {
        let sa = if a < i { a } else { a + 1 };
        let sb = if b < i { b } else { b + 1 };
        assert(r[a] == s[sa] && r[b] == s[sb]);
    }
    assert forall|x: u64| #[trigger] r.to_set().contains(x) <==> s.to_set().remove(s[i]).contains(x) by {
        if r.contains(x) {
            let j = choose|j: int| 0 <= j < r.len() && r[j] == x;
            let sj = if j < i { j } else { j + 1 };
            assert(s[sj] == x);
            assert(sj != i);
            assert(s.contains(x));
        }
        if s.contains(x) && x != s[i] {
            let j = choose|j: int| 0 <= j < s.len() && s[j] == x;
            assert(j != i);
            let rj = if j < i { j } else { j - 1 };
            assert(r[rj] == x);
        }
    }
    assert(r.to_set() =~= s.to_set().remove(s[i]));
}

/// One change to the registry: a connection finishing its opening handshake,
/// or its close being processed.
pub enum RegistryOp {
    Open(u64),
    Close(u64),
}

/// The members after one change, as `add` and `remove` state it.
pub open spec fn apply_op(s: Set<u64>, op: RegistryOp) -> Set<u64> {
    match op {
        RegistryOp::Open(h) => s.insert(h),
        RegistryOp::Close(h) => s.remove(h),
    }
}

/// The members of a registry that starts empty and goes through `ops`.
pub open spec fn replay(ops: Seq<RegistryOp>) -> Set<u64>
    decreases ops.len(),
{
    if ops.len() == 0 {
        Set::empty()
    } else {
        apply_op(replay(ops.drop_last()), ops.last())
    }
}

/// How many of `ops` are opens.
pub open spec fn count_opens(ops: Seq<RegistryOp>) -> nat
    decreases ops.len(),
{
    if ops.len() == 0 {
        0
    } else {
        count_opens(ops.drop_last()) + if ops.last() is Open { 1nat } else { 0nat }
    }
}

/// How many of `ops` are closes.
pub open spec fn count_closes(ops: Seq<RegistryOp>) -> nat
    decreases ops.len(),
{
    if ops.len() == 0 {
        0
    } else {
        count_closes(ops.drop_last()) + if ops.last() is Close { 1nat } else { 0nat }
    }
}

/// Every open is of a connection that is not open at that point, and every
/// close is of one that is.
pub open spec fn well_ordered(ops: Seq<RegistryOp>) -> bool
    decreases ops.len(),
{
    ops.len() == 0 || (well_ordered(ops.drop_last()) && match ops.last() {
        RegistryOp::Open(h) => !replay(ops.drop_last()).contains(h),
        RegistryOp::Close(h) => replay(ops.drop_last()).contains(h),
    })
}

/// Opens of each of `hs`, in order.
pub open spec fn opens_of(hs: Seq<u64>) -> Seq<RegistryOp> {
    hs.map_values(|h: u64| RegistryOp::Open(h))
}

/// Closes of each of `hs`, in order.
pub open spec fn closes_of(hs: Seq<u64>) -> Seq<RegistryOp> {
    hs.map_values(|h: u64| RegistryOp::Close(h))
}

/// After any interleaving of opens and closes, processed one at a time, a
/// connection is registered exactly when some open of it was processed and no
/// close of it was processed after that open: no connection stays after its
/// close and none is missing before its close.
pub proof fn lemma_member_iff_open_not_closed(ops: Seq<RegistryOp>, h: u64)
    ensures
        replay(ops).contains(h) <==> exists|i: int|
            0 <= i < ops.len() && ops[i] == RegistryOp::Open(h) && forall|j: int|
                i < j < ops.len() ==> #[trigger] ops[j] != RegistryOp::Close(h),
    decreases ops.len(),
{
    if ops.len() > 0 {
        let init = ops.drop_last();
        lemma_member_iff_open_not_closed(init, h);
        let n = ops.len() - 1;
        if replay(ops).contains(h) {
            if ops.last() == RegistryOp::Open(h) {
                assert(ops[n] == RegistryOp::Open(h));
            } else {
                let i = choose|i: int|
                    0 <= i < init.len() && init[i] == RegistryOp::Open(h) && forall|j: int|
                        i < j < init.len() ==> #[trigger] init[j] != RegistryOp::Close(h);
                assert(ops[i] == RegistryOp::Open(h));
                assert forall|j: int| i < j < ops.len() implies #[trigger] ops[j] != RegistryOp::Close(
                    h,
                ) by {
                    if j < n {
                        assert(ops[j] == init[j]);
                    }
                }
            }
        } else {
            assert forall|i: int|
                0 <= i < ops.len() && ops[i] == RegistryOp::Open(h) implies exists|j: int|
                i < j < ops.len() && #[trigger] ops[j] == RegistryOp::Close(h) by {
                if ops.last() != RegistryOp::Close(h) {
                    assert(i < n);
                    assert(init[i] == RegistryOp::Open(h));
                    let j = choose|j: int| i < j < init.len() && #[trigger] init[j] == RegistryOp::Close(h);
                    assert(ops[j] == RegistryOp::Close(h));
                } else {
                    assert(ops[n] == RegistryOp::Close(h));
                }
            }
        }
    }
}

/// Over any run of opens and closes, the registry's size is the number of
/// opens minus the number of closes so far.
pub proof fn lemma_size_is_opens_minus_closes(ops: Seq<RegistryOp>)
    requires
        well_ordered(ops),
    ensures
        replay(ops).finite(),
        replay(ops).len() + count_closes(ops) == count_opens(ops),
    decreases ops.len(),
{
    if ops.len() > 0 {
        lemma_size_is_opens_minus_closes(ops.drop_last());
    }
}

/// A close reported a second time changes nothing.
pub proof fn lemma_second_close_no_effect(ops: Seq<RegistryOp>, h: u64)
    ensures
        replay(ops.push(RegistryOp::Close(h)).push(RegistryOp::Close(h))) == replay(
            ops.push(RegistryOp::Close(h)),
        ),
{
    let once = ops.push(RegistryOp::Close(h));
    let twice = once.push(RegistryOp::Close(h));
    assert(twice.drop_last() == once);
    assert(once.drop_last() == ops);
    assert(replay(twice) =~= replay(once));
}

/// Opens of `hs` leave exactly `hs` registered.
proof fn lemma_replay_opens(hs: Seq<u64>)
    ensures
        replay(opens_of(hs)) == hs.to_set(),
    decreases hs.len(),
{
    if hs.len() == 0 {
        assert(hs.to_set() =~= Set::<u64>::empty());
    } else {
        let init = hs.drop_last();
        assert(opens_of(hs).drop_last() =~= opens_of(init));
        lemma_replay_opens(init);
        init.lemma_push_to_set_commute(hs.last());
        assert(init.push(hs.last()) =~= hs);
    }
}

/// Closes of `cs` after `p` remove exactly `cs` from what `p` left.
proof fn lemma_replay_closes(p: Seq<RegistryOp>, cs: Seq<u64>)
    ensures
        replay(p + closes_of(cs)) == replay(p).difference(cs.to_set()),
    decreases cs.len(),
{
    if cs.len() == 0 {
        assert(p + closes_of(cs) =~= p);
        assert(cs.to_set() =~= Set::<u64>::empty());
        assert(replay(p).difference(cs.to_set()) =~= replay(p));
    } else {
        let init = cs.drop_last();
        assert((p + closes_of(cs)).drop_last() =~= p + closes_of(init));
        lemma_replay_closes(p, init);
        init.lemma_push_to_set_commute(cs.last());
        assert(init.push(cs.last()) =~= cs);
        assert(replay(p + closes_of(cs)) =~= replay(p).difference(cs.to_set()));
    }
}

/// After N opens followed by the N matching closes, the registry is empty.
pub proof fn lemma_open_all_then_close_all(hs: Seq<u64>)
    ensures
        replay(opens_of(hs) + closes_of(hs)) == Set::<u64>::empty(),
{
    lemma_replay_opens(hs);
    lemma_replay_closes(opens_of(hs), hs);
    assert(hs.to_set().difference(hs.to_set()) =~= Set::<u64>::empty());
}

/// The ids of the connections that are open now, without duplicates.
pub struct ConnectionRegistry {
    handles: Vec<u64>,
}

impl View for ConnectionRegistry {
    type V = Set<u64>;

    closed spec fn view(&self) -> Set<u64> {
        self.handles@.to_set()
    }
}

impl ConnectionRegistry {
    /// No id appears twice.
    pub closed spec fn wf(&self) -> bool {
        self.handles@.no_duplicates()
    }

    /// The ids in the order a snapshot lists them.
    pub closed spec fn order(&self) -> Seq<u64> {
        self.handles@
    }

    /// A well-formed registry lists each of its members once, so its size is
    /// the number of members, and its set of members is finite.
    pub proof fn lemma_size(&self)
        requires
            self.wf(),
        ensures
            self.order().len() == self@.len(),
            self.order().to_set() == self@,
            self.order().no_duplicates(),
            self@.finite(),
    {
        self.handles@.unique_seq_to_set();
    }

    /// An empty registry.
    pub fn new() -> (r: ConnectionRegistry)
        ensures
            r.wf(),
            r@ == Set::<u64>::empty(),
            r.order() == Seq::<u64>::empty(),
    {
        let r = ConnectionRegistry { handles: Vec::new() };
        assert(r@ =~= Set::<u64>::empty());
        r
    }

    /// The number of open connections.
    pub fn len(&self) -> (r: usize)
        requires
            self.wf(),
        ensures
            r == self@.len(),
    {
        proof {
            self.lemma_size();
        }
        self.handles.len()
    }

    /// Whether no connection is open.
    pub fn is_empty(&self) -> (r: bool)
        requires
            self.wf(),
        ensures
            r == (self@.len() == 0),
    {
        proof {
            self.lemma_size();
        }
        self.handles.len() == 0
    }

    /// Whether connection `h` is open.
    pub fn contains(&self, h: u64) -> (r: bool)
        ensures
            r == self@.contains(h),
    {
        let mut i: usize = 0;
        while i < self.handles.len()
            invariant
                i <= self.handles@.len(),
                forall|j: int| 0 <= j < i ==> self.handles@[j] != h,
            decreases self.handles@.len() - i,
        {
            if self.handles[i] == h {
                assert(self.handles@.contains(h));
                return true;
            }
            i = i + 1;
        }
        false
    }

    /// Registers connection `h`; nothing changes if it is already there.
    /// Returns whether it was added.
    pub fn add(&mut self, h: u64) -> (added: bool)
        requires
            old(self).wf(),
        ensures
            final(self).wf(),
            added == !old(self)@.contains(h),
            final(self)@ == old(self)@.insert(h),
            final(self)@.len() == old(self)@.len() + if added { 1int } else { 0int },
    {
        proof {
            self.lemma_size();
        }
        if self.contains(h) {
            assert(self@.insert(h) =~= self@);
            return false;
        }
        self.handles.push(h);
        proof {
            let s = old(self).handles@;
            s.lemma_push_to_set_commute(h);
            assert(self.handles@ == s.push(h));
            assert forall|a: int, b: int|
                0 <= a < b < self.handles@.len() implies self.handles@[a] != self.handles@[b] by {
                if b == s.len() {
                    assert(s.contains(self.handles@[a]));
                }
            }
            self.lemma_size();
        }
        true
    }

    /// Deregisters connection `h`; nothing changes if it is absent, so a close
    /// reported twice takes effect once. Returns whether it was removed.
    pub fn remove(&mut self, h: u64) -> (removed: bool)
        requires
            old(self).wf(),
        ensures
            final(self).wf(),
            removed == old(self)@.contains(h),
            final(self)@ == old(self)@.remove(h),
            final(self)@.len() == old(self)@.len() - if removed { 1int } else { 0int },
    {
        proof {
            self.lemma_size();
        }
        let mut i: usize = 0;
        while i < self.handles.len()
            invariant
                self.handles@ == old(self).handles@,
                old(self).wf(),
                i <= self.handles@.len(),
                forall|j: int| 0 <= j < i ==> self.handles@[j] != h,
            decreases self.handles@.len() - i,
        {
            if self.handles[i] == h {
                proof {
                    lemma_remove_from_unique(self.handles@, i as int);
                }
                self.handles.remove(i);
                proof {
                    self.lemma_size();
                }
                return true;
            }
            i = i + 1;
        }
        assert(!self.handles@.contains(h));
        assert(self@.remove(h) =~= self@);
        false
    }

    /// A point-in-time copy of the open connections, each listed once.
    pub fn snapshot(&self) -> (r: Vec<u64>)
        requires
            self.wf(),
        ensures
            r@ == self.order(),
            r@.no_duplicates(),
            r@.to_set() == self@,
            r@.len() == self@.len(),
    {
        proof {
            self.lemma_size();
        }
        self.handles.clone()
    }
}

} // verus!
