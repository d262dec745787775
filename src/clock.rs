use vstd::prelude::*;
use crdts::CmRDT;
use crdts::VClock;

verus! {

/// The identity of an actor (a process, and the account it owns).
pub type Identity = u64;

#[verifier::external_type_specification]
#[verifier::external_body]
#[verifier::reject_recursive_types(A)]
pub struct ExVClock<A: Ord>(VClock<A>);

/// The counters held by a `crdts::VClock`: each actor present maps to the
/// highest counter recorded for it.
pub uninterp spec fn vclock_counts(c: VClock<u64>) -> Map<u64, u64>;

/// The counter of `a` in `m`; an actor that is absent counts as zero.
pub open spec fn count_of(m: Map<u64, u64>, a: u64) -> nat {
    if m.contains_key(a) {
        m[a] as nat
    } else {
        0
    }
}

/// Relies on `VClock::new`: a clock with no actors.
#[verifier::external_body]
fn vclock_new() -> (r: VClock<u64>)
    ensures
        vclock_counts(r).dom() == Set::<u64>::empty(),
{
    VClock::new()
}

/// Relies on `VClock::get`: the recorded counter, zero for an absent actor.
#[verifier::external_body]
fn vclock_get(c: &VClock<u64>, a: u64) -> (r: u64)
    ensures
        r as nat == count_of(vclock_counts(*c), a),
{
    c.get(&a)
}

/// Relies on `VClock::inc`: the dot one past the recorded counter of `a`,
/// built without changing the clock (it adds one to a `u64`, hence the bound).
#[verifier::external_body]
fn vclock_inc(c: &VClock<u64>, a: u64) -> (r: Dot)
    requires
        count_of(vclock_counts(*c), a) < u64::MAX,
    ensures
        r.actor == a,
        r.counter as nat == count_of(vclock_counts(*c), a) + 1,
{
    let d = c.inc(a);
    Dot { actor: d.actor, counter: d.counter }
}

/// Relies on `CmRDT::apply` for `VClock`: the dot's counter is recorded for
/// its actor when it is above the counter already there, and ignored otherwise.
#[verifier::external_body]
fn vclock_apply(c: &mut VClock<u64>, d: Dot)
    ensures
        vclock_counts(*final(c)) == if count_of(vclock_counts(*old(c)), d.actor) < d.counter {
            vclock_counts(*old(c)).insert(d.actor, d.counter)
        } else {
            vclock_counts(*old(c))
        },
{
    c.apply(crdts::Dot::new(d.actor, d.counter))
}

/// A version stamp: the `counter`-th operation emitted by `actor`.
#[derive(Clone, Copy, Debug, PartialEq, Eq, Structural)]
pub struct Dot {
    pub actor: Identity,
    pub counter: u64,
}

/// A vector clock: for each actor, the highest counter seen (zero if none).
pub struct VectorClock {
    dots: VClock<u64>,
}

impl View for VectorClock {
    type V = Map<u64, u64>;

    closed spec fn view(&self) -> Map<u64, u64> {
        vclock_counts(self.dots)
    }
}

impl VectorClock {
    /// The counter recorded for `a` (zero when absent).
    pub open spec fn count(&self, a: Identity) -> nat {
        count_of(self@, a)
    }

    /// The clock that has seen nothing.
    pub fn new() -> (r: VectorClock)
        ensures
            r@.dom() == Set::<u64>::empty(),
            forall|a: Identity| r.count(a) == 0,
    {
        VectorClock { dots: vclock_new() }
    }

    /// The highest counter seen for `a`.
    pub fn get(&self, a: Identity) -> (r: u64)
        ensures
            r as nat == self.count(a),
    {
        vclock_get(&self.dots, a)
    }

    /// The next unused stamp of `a`, or `None` when its counter is exhausted.
    pub fn next(&self, a: Identity) -> (r: Option<Dot>)
        ensures
            match r {
                Some(d) => d.actor == a && d.counter as nat == self.count(a) + 1,
                None => self.count(a) == u64::MAX,
            },
    {
        let c = vclock_get(&self.dots, a);
        if c == u64::MAX {
            None
        } else {
            Some(vclock_inc(&self.dots, a))
        }
    }

    /// Whether `d` is exactly the next unused stamp of its actor.
    pub fn is_next(&self, d: Dot) -> (r: bool)
        ensures
            r == (d.counter as nat == self.count(d.actor) + 1),
    {
        match self.next(d.actor) {
            Some(n) => n == d,
            None => false,
        }
    }

    /// Whether the operation `d` stands for has been recorded in this clock.
    pub fn contains(&self, d: Dot) -> (r: bool)
        ensures
            r == (1 <= d.counter && d.counter as nat <= self.count(d.actor)),
    {
        let c = vclock_get(&self.dots, d.actor);
        1 <= d.counter && d.counter <= c
    }

    /// Records `d`: the counter of its actor becomes the larger of the two.
    pub fn apply(&mut self, d: Dot)
        ensures
            final(self)@ == if old(self).count(d.actor) < d.counter {
                old(self)@.insert(d.actor, d.counter)
            } else {
                old(self)@
            },
            final(self).count(d.actor) == if old(self).count(d.actor) < d.counter {
                d.counter as nat
            } else {
                old(self).count(d.actor)
            },
            forall|a: Identity| a != d.actor ==> final(self).count(a) == old(self).count(a),
    {
        vclock_apply(&mut self.dots, d);
    }
}

} // verus!
