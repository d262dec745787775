use vstd::prelude::*;
use std::collections::HashSet;
use crate::bank::{after_transfer, balance_of, transfer_valid, Account, Bank, Money, Transfer};
use crate::clock::{count_of, Dot, Identity, VectorClock};

verus! {

broadcast use vstd::std_specs::hash::group_hash_axioms;

/// A transfer together with the stamp its author gave it.
#[derive(Clone, Copy, Debug, PartialEq, Eq, Structural)]
pub struct Msg {
    pub op: Transfer,
    pub source_version: Dot,
}

/// An effect that a protocol step asks its environment to perform.
#[derive(Clone, Copy, Debug, PartialEq, Eq, Structural)]
pub enum Cmd {
    /// Announce `new_peer`, opened with `initial_balance`, to every process.
    BroadcastNewPeer { new_peer: Identity, initial_balance: Money },
    /// Deliver `msg`, authored by `from`, to every process.
    BroadcastMsg { from: Identity, msg: Msg },
}

/// Whether delivery admits `msg` from `from` given the received clock `rec`:
/// the sender authored it, and it is the next operation unseen from it.
pub open spec fn delivery_accepts(rec: Map<Identity, u64>, from: Identity, msg: Msg) -> bool {
    &&& from == msg.source_version.actor
    &&& msg.source_version.counter as nat == count_of(rec, from) + 1
}

/// Whether `msg` from `from` may be applied, given the applied clock `seq`
/// and the balances `bal`: the sender authored it, it directly follows the
/// last operation applied from the sender, and the ledger accepts it.
pub open spec fn msg_valid(
    seq: Map<Identity, u64>,
    bal: Map<Account, Money>,
    from: Identity,
    msg: Msg,
) -> bool {
    &&& from == msg.source_version.actor
    &&& msg.source_version.counter as nat == count_of(seq, from) + 1
    &&& transfer_valid(bal, from, msg.op)
}

/// The applied clock and the balances after the entries of `q` are tried in
/// order: each valid one is applied, each other one is dropped.
pub open spec fn drain(
    seq: Map<Identity, u64>,
    bal: Map<Account, Money>,
    q: Seq<(Identity, Msg)>,
) -> (Map<Identity, u64>, Map<Account, Money>)
    decreases q.len(),
{
    if q.len() == 0 {
        (seq, bal)
    } else {
        let (from, msg) = q[0];
        if msg_valid(seq, bal, from, msg) {
            drain(
                seq.insert(from, msg.source_version.counter),
                after_transfer(bal, msg.op),
                q.drop_first(),
            )
        } else {
            drain(seq, bal, q.drop_first())
        }
    }
}

/// The peer set, the opening balances, the current balances and the commands
/// after process `me` hears of peer `p` opened with `b`: an unknown peer is
/// registered, its account opened, and `me` announces itself back; a known
/// peer changes nothing and gets no command.
pub open spec fn peer_step(
    peers: Set<Identity>,
    initials: Map<Account, Money>,
    balances: Map<Account, Money>,
    me: Identity,
    p: Identity,
    b: Money,
) -> (Set<Identity>, Map<Account, Money>, Map<Account, Money>, Seq<Cmd>) {
    if peers.contains(p) {
        (peers, initials, balances, Seq::<Cmd>::empty())
    } else {
        let opened = initials.insert(p, b);
        (
            peers.insert(p),
            opened,
            balances.insert(p, b),
            seq![Cmd::BroadcastNewPeer { new_peer: me, initial_balance: balance_of(opened, me) as u64 }],
        )
    }
}

/// One participant of the protocol.
pub struct Proc {
    id: Identity,
    bank: Bank,
    /// Versions applied to the ledger.
    seq: VectorClock,
    /// Versions received, applied or not.
    rec: VectorClock,
    /// Delivered messages that wait for validation, in arrival order.
    to_validate: Vec<(Identity, Msg)>,
    /// Peers this process has heard of.
    peers: HashSet<Identity>,
}

impl Proc {
    /// The name this process goes by.
    pub closed spec fn ident(&self) -> Identity {
        self.id
    }

    /// The local ledger.
    pub closed spec fn ledger(&self) -> Bank {
        self.bank
    }

    /// The applied clock.
    pub closed spec fn applied(&self) -> Map<Identity, u64> {
        self.seq@
    }

    /// The received clock.
    pub closed spec fn received(&self) -> Map<Identity, u64> {
        self.rec@
    }

    /// The messages waiting for validation.
    pub closed spec fn pending(&self) -> Seq<(Identity, Msg)> {
        self.to_validate@
    }

    /// The peers heard of.
    pub closed spec fn known_peers(&self) -> Set<Identity> {
        self.peers@
    }

    /// The current balances of the local ledger.
    pub open spec fn balances(&self) -> Map<Account, Money> {
        self.ledger().balances_view()
    }

    /// The balances the local ledger's accounts were opened with.
    pub open spec fn initials(&self) -> Map<Account, Money> {
        self.ledger().initial_view()
    }

    /// The internal invariant: for every actor, no more has been applied than
    /// received, and each waiting message was authored by its sender and has
    /// been counted as received.
    pub open spec fn wf(&self) -> bool {
        &&& forall|a: Identity| count_of(self.received(), a) >= count_of(self.applied(), a)
        &&& forall|i: int|
            0 <= i < self.pending().len() ==> {
                let (from, msg) = #[trigger] self.pending()[i];
                &&& msg.source_version.actor == from
                &&& msg.source_version.counter as nat <= count_of(self.received(), from)
            }
    }

    /// A process named `id` whose own account opens with `initial_balance`.
    pub fn new(id: Identity, initial_balance: Money) -> (r: Proc)
        ensures
            r.wf(),
            r.ident() == id,
            r.initials() == Map::<Account, Money>::empty().insert(id, initial_balance),
            r.balances() == Map::<Account, Money>::empty().insert(id, initial_balance),
            r.applied().dom() == Set::<Identity>::empty(),
            r.received().dom() == Set::<Identity>::empty(),
            r.pending().len() == 0,
            r.known_peers() == Set::<Identity>::empty(),
    {
        let mut p = Proc {
            id,
            bank: Bank::new(id),
            seq: VectorClock::new(),
            rec: VectorClock::new(),
            to_validate: Vec::new(),
            peers: HashSet::new(),
        };
        p.bank.onboard_account(id, initial_balance);
        assert(p.initials() =~= Map::<Account, Money>::empty().insert(id, initial_balance));
        assert(p.balances() =~= Map::<Account, Money>::empty().insert(id, initial_balance));
        p
    }

    /// The commands a new process broadcasts to announce itself.
    pub fn onboard(&self) -> (r: Vec<Cmd>)
        ensures
            r@ == seq![
                Cmd::BroadcastNewPeer {
                    new_peer: self.ident(),
                    initial_balance: balance_of(self.initials(), self.ident()) as u64,
                },
            ],
    {
        vec![Cmd::BroadcastNewPeer {
            new_peer: self.id,
            initial_balance: self.bank.initial_balance(self.id),
        }]
    }
}


impl Proc {
    /// Builds a transfer of `amount` from this process to `to` and stamps it
    /// with the next version of this process. Nothing is emitted when the
    /// ledger refuses the transfer or the counter of this process is
    /// exhausted; no state changes either way.
    pub fn transfer(&self, from: Identity, to: Identity, amount: Money) -> (r: Vec<Cmd>)
        requires
            from == self.ident(),
        ensures
            ({
                let c = count_of(self.applied(), from);
                if amount as nat <= balance_of(self.balances(), from) && c < u64::MAX {
                    r@ == seq![
                        Cmd::BroadcastMsg {
                            from,
                            msg: Msg {
                                op: Transfer { from, to, amount },
                                source_version: Dot { actor: from, counter: (c + 1) as u64 },
                            },
                        },
                    ]
                } else {
                    r@.len() == 0
                }
            }),
    {
        match self.bank.transfer(from, to, amount) {
            Some(t) => match self.seq.next(from) {
                Some(v) => vec![Cmd::BroadcastMsg { from, msg: Msg { op: t, source_version: v } }],
                None => Vec::new(),
            },
            None => Vec::new(),
        }
    }

    /// The current balance of `account` in the local ledger.
    pub fn read(&self, account: Account) -> (r: Money)
        ensures
            r as nat == balance_of(self.balances(), account),
    {
        self.bank.read(account)
    }

    /// Causal admission: `msg` from `from` is accepted exactly when `from`
    /// authored it and it is the next operation unseen from `from`. An
    /// accepted message is counted as received and queued for validation;
    /// any other is dropped and nothing changes.
    pub fn on_delivery(&mut self, from: Identity, msg: Msg) -> (accepted: bool)
        requires
            old(self).wf(),
        ensures
            final(self).wf(),
            accepted == delivery_accepts(old(self).received(), from, msg),
            accepted ==> final(self).received() == old(self).received().insert(
                from,
                msg.source_version.counter,
            ),
            accepted ==> final(self).pending() == old(self).pending().push((from, msg)),
            !accepted ==> final(self).received() == old(self).received(),
            !accepted ==> final(self).pending() == old(self).pending(),
            final(self).ident() == old(self).ident(),
            final(self).ledger() == old(self).ledger(),
            final(self).applied() == old(self).applied(),
            final(self).known_peers() == old(self).known_peers(),
    {
        if from == msg.source_version.actor && self.rec.is_next(msg.source_version) {
            self.rec.apply(msg.source_version);
            self.to_validate.push((from, msg));
            assert forall|i: int| 0 <= i < self.pending().len() implies {
                let (f, m) = #[trigger] self.pending()[i];
                &&& m.source_version.actor == f
                &&& m.source_version.counter as nat <= count_of(self.received(), f)
            } by {
                if i < old(self).pending().len() {
                    assert(self.pending()[i] == old(self).pending()[i]);
                }
            }
            true
        } else {
            false
        }
    }

    /// The validation gate: whether `msg` from `from` may be applied now.
    pub fn validate(&self, from: Identity, msg: &Msg) -> (r: bool)
        ensures
            r == msg_valid(self.applied(), self.balances(), from, *msg),
    {
        if from != msg.source_version.actor {
            false
        } else if !self.seq.is_next(msg.source_version) {
            false
        } else {
            self.bank.validate(from, &msg.op)
        }
    }

    /// Applies a validated message: its stamp is recorded as applied and its
    /// transfer is applied to the ledger.
    pub fn on_validated(&mut self, from: Identity, msg: Msg)
        requires
            old(self).wf(),
            msg_valid(old(self).applied(), old(self).balances(), from, msg),
            msg.source_version.counter as nat <= count_of(old(self).received(), from),
        ensures
            final(self).wf(),
            final(self).applied() == old(self).applied().insert(from, msg.source_version.counter),
            count_of(final(self).applied(), from) == count_of(old(self).applied(), from) + 1,
            final(self).balances() == after_transfer(old(self).balances(), msg.op),
            final(self).initials() == old(self).initials(),
            final(self).ident() == old(self).ident(),
            final(self).received() == old(self).received(),
            final(self).pending() == old(self).pending(),
            final(self).known_peers() == old(self).known_peers(),
    {
        self.seq.apply(msg.source_version);
        self.bank.apply(msg.op);
        assert forall|a: Identity|
            count_of(self.received(), a) >= #[trigger] count_of(self.applied(), a) by {
            if a != from {
                assert(count_of(old(self).received(), a) >= count_of(old(self).applied(), a));
            }
        }
        assert(self.pending() == old(self).pending());
        assert(self.received() == old(self).received());
    }
}


impl Proc {
    /// Takes the whole validation queue and tries each message once, in
    /// arrival order: a valid one is applied, any other is dropped. A message
    /// whose predecessor sits later in the same queue is dropped too.
    pub fn process_msg_queue(&mut self)
        requires
            old(self).wf(),
        ensures
            final(self).wf(),
            final(self).pending().len() == 0,
            (final(self).applied(), final(self).balances()) == drain(
                old(self).applied(),
                old(self).balances(),
                old(self).pending(),
            ),
            final(self).received() == old(self).received(),
            final(self).initials() == old(self).initials(),
            final(self).ident() == old(self).ident(),
            final(self).known_peers() == old(self).known_peers(),
    {
        let mut q: Vec<(Identity, Msg)> = Vec::new();
        std::mem::swap(&mut q, &mut self.to_validate);
        let n: usize = q.len();
        let mut i: usize = 0;
        assert(q@.subrange(0, n as int) == q@);
        while i < n
            invariant
                0 <= i <= n,
                n == q@.len(),
                q@ == old(self).pending(),
                self.pending().len() == 0,
                self.received() == old(self).received(),
                self.initials() == old(self).initials(),
                self.ident() == old(self).ident(),
                self.known_peers() == old(self).known_peers(),
                forall|a: Identity|
                    count_of(self.received(), a) >= #[trigger] count_of(self.applied(), a),
                forall|j: int|
                    0 <= j < n ==> {
                        let (from, msg) = #[trigger] q@[j];
                        &&& msg.source_version.actor == from
                        &&& msg.source_version.counter as nat <= count_of(self.received(), from)
                    },
                drain(self.applied(), self.balances(), q@.subrange(i as int, n as int)) == drain(
                    old(self).applied(),
                    old(self).balances(),
                    old(self).pending(),
                ),
            decreases n - i,
        {
            let (to, msg) = q[i];
            let ghost rest = q@.subrange(i as int, n as int);
            assert(rest[0] == q@[i as int]);
            assert(rest.drop_first() == q@.subrange(i as int + 1, n as int));
            if self.validate(to, &msg) {
                self.on_validated(to, msg);
            }
            i = i + 1;
        }
    }

    /// Handles a message from a peer: delivery, then one pass over the
    /// validation queue. No command is ever emitted.
    pub fn handle_msg(&mut self, from: Identity, msg: Msg) -> (r: Vec<Cmd>)
        requires
            old(self).wf(),
        ensures
            final(self).wf(),
            r@.len() == 0,
            ({
                let accepted = delivery_accepts(old(self).received(), from, msg);
                let queue = if accepted {
                    old(self).pending().push((from, msg))
                } else {
                    old(self).pending()
                };
                &&& final(self).received() == if accepted {
                    old(self).received().insert(from, msg.source_version.counter)
                } else {
                    old(self).received()
                }
                &&& (final(self).applied(), final(self).balances()) == drain(
                    old(self).applied(),
                    old(self).balances(),
                    queue,
                )
            }),
            final(self).pending().len() == 0,
            final(self).initials() == old(self).initials(),
            final(self).ident() == old(self).ident(),
            final(self).known_peers() == old(self).known_peers(),
    {
        self.on_delivery(from, msg);
        self.process_msg_queue();
        Vec::new()
    }

    /// Registers `new_proc` on first contact: its account opens with
    /// `initial_balance`, and this process announces itself back. A peer
    /// already known is ignored, with no command.
    pub fn handle_new_peer(&mut self, new_proc: Identity, initial_balance: Money) -> (r: Vec<Cmd>)
        requires
            old(self).wf(),
        ensures
            final(self).wf(),
            final(self).ident() == old(self).ident(),
            final(self).applied() == old(self).applied(),
            final(self).received() == old(self).received(),
            final(self).pending() == old(self).pending(),
            (final(self).known_peers(), final(self).initials(), final(self).balances(), r@)
                == peer_step(
                old(self).known_peers(),
                old(self).initials(),
                old(self).balances(),
                old(self).ident(),
                new_proc,
                initial_balance,
            ),
    {
        if !self.peers.contains(&new_proc) {
            self.peers.insert(new_proc);
            self.bank.onboard_account(new_proc, initial_balance);
            assert(self.pending() == old(self).pending());
            assert(self.received() == old(self).received());
            assert(self.applied() == old(self).applied());
            vec![Cmd::BroadcastNewPeer {
                new_peer: self.id,
                initial_balance: self.bank.initial_balance(self.id),
            }]
        } else {
            Vec::new()
        }
    }
}


impl Proc {
    /// The name this process goes by.
    pub fn id(&self) -> (r: Identity)
        ensures
            r == self.ident(),
    {
        self.id
    }

    /// The highest counter of `a` applied to the ledger.
    pub fn applied_knowledge(&self, a: Identity) -> (r: u64)
        ensures
            r as nat == count_of(self.applied(), a),
    {
        self.seq.get(a)
    }

    /// The highest counter of `a` received, applied or not.
    pub fn received_knowledge(&self, a: Identity) -> (r: u64)
        ensures
            r as nat == count_of(self.received(), a),
    {
        self.rec.get(a)
    }

    /// How many delivered messages wait for validation.
    pub fn pending_len(&self) -> (r: usize)
        ensures
            r == self.pending().len(),
    {
        self.to_validate.len()
    }

    /// Whether this process has heard of peer `p`.
    pub fn knows_peer(&self, p: Identity) -> (r: bool)
        ensures
            r == self.known_peers().contains(p),
    {
        self.peers.contains(&p)
    }

    /// The balance `a` was opened with in the local ledger.
    pub fn initial_balance(&self, a: Account) -> (r: Money)
        ensures
            r as nat == balance_of(self.initials(), a),
    {
        self.bank.initial_balance(a)
    }
}

} // verus!
