use vstd::prelude::*;

verus! {

/// A native context handle as the driver hands it out: an opaque pointer-sized value.
pub type NativeHandle = u64;

/// Why a reference could not be taken or given back.
#[derive(Clone, Copy, Debug, PartialEq, Eq, Structural)]
pub enum ContextError {
    /// The reference does not name a handle that the table still holds.
    NotHeld,
    /// The handle's count is at its largest value.
    CountOverflow,
}

/// One counted reference to a native context handle held in a `ContextTable`.
///
/// It has no `Clone`: a new reference comes only from `ContextTable::retain`,
/// which counts it, and goes back through `ContextTable::release`.
#[derive(Debug)]
pub struct SharedContext {
    slot: usize,
    raw: NativeHandle,
}

impl View for SharedContext {
    /// The table slot the reference counts in, and the native handle.
    type V = (nat, NativeHandle);

    closed spec fn view(&self) -> (nat, NativeHandle) {
        (self.slot as nat, self.raw)
    }
}

impl SharedContext {
    /// The native handle this reference stands for.
    pub fn native(&self) -> (r: NativeHandle)
        ensures
            r == self@.1,
    {
        self.raw
    }
}

/// The count after one more reference is taken: a released handle cannot be
/// revived, and a count at its largest value stays there.
pub open spec fn retain_step(count: nat) -> nat {
    if 0 < count && count < u64::MAX {
        count + 1
    } else {
        count
    }
}

/// The count after one reference is given back, and whether that was the last
/// one, so that the native handle is now owed its release.
pub open spec fn release_step(count: nat) -> (nat, bool) {
    if count == 0 {
        (0, false)
    } else {
        ((count - 1) as nat, count == 1)
    }
}

#[derive(Clone, Copy, Debug)]
struct Slot {
    raw: NativeHandle,
    count: u64,
}

/// The reference counts of native context handles.
///
/// Each adopted handle gets a slot of its own that is never reused, so a
/// released slot keeps its count at zero for good.
pub struct ContextTable {
    slots: Vec<Slot>,
}

impl View for ContextTable {
    /// For each slot, its native handle and how many references to it are alive.
    type V = Seq<(NativeHandle, nat)>;

    closed spec fn view(&self) -> Seq<(NativeHandle, nat)> {
        self.slots@.map_values(|s: Slot| (s.raw, s.count as nat))
    }
}

impl ContextTable {
    /// Whether `r` is a live reference counted in the table `t`.
    pub open spec fn holds(t: Seq<(NativeHandle, nat)>, r: (nat, NativeHandle)) -> bool {
        &&& r.0 < t.len()
        &&& t[r.0 as int].0 == r.1
        &&& t[r.0 as int].1 > 0
    }

    pub fn new() -> (t: ContextTable)
        ensures
            t@ == Seq::<(NativeHandle, nat)>::empty(),
    {
        ContextTable { slots: Vec::new() }
    }

    /// Takes ownership of a handle that the driver has just created: its count starts at one.
    pub fn adopt(&mut self, raw: NativeHandle) -> (r: SharedContext)
        ensures
            final(self)@ == old(self)@.push((raw, 1nat)),
            r@ == (old(self)@.len(), raw),
    {
        let slot = self.slots.len();
        self.slots.push(Slot { raw, count: 1 });
        proof {
            assert(self@ =~= old(self)@.push((raw, 1nat)));
        }
        SharedContext { slot, raw }
    }

    /// How many references to the handle of `r` are alive; zero for one the table does not hold.
    pub fn count(&self, r: &SharedContext) -> (c: u64)
        ensures
            ContextTable::holds(self@, r@) ==> c == self@[r@.0 as int].1,
            !ContextTable::holds(self@, r@) ==> c == 0,
    {
        if r.slot < self.slots.len() && self.slots[r.slot].raw == r.raw {
            self.slots[r.slot].count
        } else {
            0
        }
    }

    /// Takes one more reference to the handle of `r`.
    pub fn retain(&mut self, r: &SharedContext) -> (res: Result<SharedContext, ContextError>)
        ensures
            !ContextTable::holds(old(self)@, r@) ==> res == Err::<SharedContext, ContextError>(
                ContextError::NotHeld,
            ) && final(self)@ == old(self)@,
            ContextTable::holds(old(self)@, r@) ==> {
                let c = old(self)@[r@.0 as int].1;
                &&& final(self)@ == old(self)@.update(r@.0 as int, (r@.1, retain_step(c)))
                &&& c < u64::MAX ==> res is Ok && res->Ok_0@ == r@
                &&& c == u64::MAX ==> res == Err::<SharedContext, ContextError>(
                    ContextError::CountOverflow,
                )
            },
    {
        if r.slot >= self.slots.len() || self.slots[r.slot].raw != r.raw
            || self.slots[r.slot].count == 0 {
            return Err(ContextError::NotHeld);
        }
        let c = self.slots[r.slot].count;
        if c == u64::MAX {
            proof {
                assert(self@ =~= old(self)@.update(r@.0 as int, (r@.1, retain_step(c as nat))));
            }
            return Err(ContextError::CountOverflow);
        }
        self.slots.set(r.slot, Slot { raw: r.raw, count: c + 1 });
        proof {
            assert(self@ =~= old(self)@.update(r@.0 as int, (r@.1, retain_step(c as nat))));
        }
        Ok(SharedContext { slot: r.slot, raw: r.raw })
    }

    /// Gives back the reference `r`. When it was the last one, the handle is
    /// returned: the caller now owes the driver its release, and no later call
    /// returns it again.
    pub fn release(&mut self, r: SharedContext) -> (res: Result<Option<NativeHandle>, ContextError>)
        ensures
            !ContextTable::holds(old(self)@, r@) ==> res == Err::<Option<NativeHandle>, ContextError>(
                ContextError::NotHeld,
            ) && final(self)@ == old(self)@,
            ContextTable::holds(old(self)@, r@) ==> {
                let c = old(self)@[r@.0 as int].1;
                &&& final(self)@ == old(self)@.update(r@.0 as int, (r@.1, release_step(c).0))
                &&& res == Ok::<Option<NativeHandle>, ContextError>(
                    if release_step(c).1 { Some(r@.1) } else { None },
                )
            },
    {
        if r.slot >= self.slots.len() || self.slots[r.slot].raw != r.raw
            || self.slots[r.slot].count == 0 {
            return Err(ContextError::NotHeld);
        }
        let c = self.slots[r.slot].count;
        self.slots.set(r.slot, Slot { raw: r.raw, count: c - 1 });
        proof {
            assert(self@ =~= old(self)@.update(r@.0 as int, (r@.1, release_step(c as nat).0)));
        }
        if c == 1 {
            Ok(Some(r.raw))
        } else {
            Ok(None)
        }
    }
}

/// One operation on the references to a handle.
#[derive(Clone, Copy, Debug, PartialEq, Eq, Structural)]
pub enum RefOp {
    Retain,
    Release,
}

/// The count after `ops` starting from `count`, and how many of them released the handle.
pub open spec fn run_ops(count: nat, ops: Seq<RefOp>) -> (nat, nat)
    decreases ops.len(),
{
    if ops.len() == 0 {
        (count, 0)
    } else {
        let (next, released) = match ops[0] {
            RefOp::Retain => (retain_step(count), false),
            RefOp::Release => release_step(count),
        };
        let rest = run_ops(next, ops.drop_first());
        (rest.0, rest.1 + if released { 1nat } else { 0nat })
    }
}

proof fn lemma_released_stays_released(ops: Seq<RefOp>)
    ensures
        run_ops(0, ops) == (0nat, 0nat),
    decreases ops.len(),
{
    if ops.len() > 0 {
        lemma_released_stays_released(ops.drop_first());
    }
}

/// However clones and drops of a live handle's references interleave, the
/// handle is released at most once, and exactly once when its count has
/// reached zero.
pub proof fn lemma_release_exactly_once(count: nat, ops: Seq<RefOp>)
    requires
        count > 0,
    ensures
        run_ops(count, ops).1 <= 1,
        run_ops(count, ops).1 == 1 <==> run_ops(count, ops).0 == 0,
    decreases ops.len(),
{
    if ops.len() > 0 {
        let next = match ops[0] {
            RefOp::Retain => retain_step(count),
            RefOp::Release => release_step(count).0,
        };
        if next == 0 {
            lemma_released_stays_released(ops.drop_first());
        } else {
            lemma_release_exactly_once(next, ops.drop_first());
        }
    }
}

} // verus!
