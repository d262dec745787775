use vstd::prelude::*;
use crate::bank::{after_transfer, balance_of, transfer_valid, Account, Money, Transfer};
use crate::clock::{count_of, Identity};
use crate::process::{delivery_accepts, drain, msg_valid, peer_step, Msg, Proc};

verus! {

/// The messages that admission accepts, in order, when `msgs` are delivered
/// from `from` one after another, starting from the received clock `rec`.
pub open spec fn admitted(rec: Map<Identity, u64>, from: Identity, msgs: Seq<Msg>) -> Seq<Msg>
    decreases msgs.len(),
{
    if msgs.len() == 0 {
        Seq::<Msg>::empty()
    } else if delivery_accepts(rec, from, msgs[0]) {
        seq![msgs[0]] + admitted(
            rec.insert(from, msgs[0].source_version.counter),
            from,
            msgs.drop_first(),
        )
    } else {
        admitted(rec, from, msgs.drop_first())
    }
}

/// Sequential admission: whatever order messages from `from` arrive in, the
/// ones accepted carry the counters that follow the received one, one by one
/// and in order (on a fresh process: 1, 2, 3, ...). A message that skips
/// ahead of the next expected counter is rejected.
pub proof fn lemma_sequential_admission(rec: Map<Identity, u64>, from: Identity, msgs: Seq<Msg>)
    ensures
        forall|j: int|
            0 <= j < admitted(rec, from, msgs).len() ==> {
                let m = #[trigger] admitted(rec, from, msgs)[j];
                &&& m.source_version.actor == from
                &&& m.source_version.counter as nat == count_of(rec, from) + j + 1
            },
        forall|m: Msg|
            m.source_version.counter as nat > count_of(rec, from) + 1 ==> !#[trigger] delivery_accepts(
                rec,
                from,
                m,
            ),
    decreases msgs.len(),
{
    if msgs.len() > 0 {
        let rest = msgs.drop_first();
        if delivery_accepts(rec, from, msgs[0]) {
            let rec2 = rec.insert(from, msgs[0].source_version.counter);
            lemma_sequential_admission(rec2, from, rest);
            let tail = admitted(rec2, from, rest);
            assert(count_of(rec2, from) == count_of(rec, from) + 1);
            assert(admitted(rec, from, msgs) == seq![msgs[0]] + tail);
            assert forall|j: int| 0 <= j < admitted(rec, from, msgs).len() implies {
                let m = #[trigger] admitted(rec, from, msgs)[j];
                &&& m.source_version.actor == from
                &&& m.source_version.counter as nat == count_of(rec, from) + j + 1
            } by {
                if j > 0 {
                    assert(admitted(rec, from, msgs)[j] == tail[j - 1]);
                } else {
                    assert(admitted(rec, from, msgs)[0] == msgs[0]);
                }
            }
        } else {
            lemma_sequential_admission(rec, from, rest);
            assert(admitted(rec, from, msgs) == admitted(rec, from, rest));
        }
    }
}

/// How many entries from `a` a drain of `q` applies, starting from the
/// applied clock `seq` and the balances `bal`.
pub open spec fn applied_from(
    seq: Map<Identity, u64>,
    bal: Map<Account, Money>,
    q: Seq<(Identity, Msg)>,
    a: Identity,
) -> nat
    decreases q.len(),
{
    if q.len() == 0 {
        0
    } else {
        let (from, msg) = q[0];
        if msg_valid(seq, bal, from, msg) {
            (if from == a {
                1nat
            } else {
                0nat
            }) + applied_from(
                seq.insert(from, msg.source_version.counter),
                after_transfer(bal, msg.op),
                q.drop_first(),
                a,
            )
        } else {
            applied_from(seq, bal, q.drop_first(), a)
        }
    }
}

/// No double application: over a drain of the validation queue, the applied
/// counter of every actor grows by exactly the number of its messages that
/// were applied, one for each.
pub proof fn lemma_applied_counts_applications(
    seq: Map<Identity, u64>,
    bal: Map<Account, Money>,
    q: Seq<(Identity, Msg)>,
    a: Identity,
)
    ensures
        count_of(drain(seq, bal, q).0, a) == count_of(seq, a) + applied_from(seq, bal, q, a),
    decreases q.len(),
{
    if q.len() > 0 {
        let (from, msg) = q[0];
        if msg_valid(seq, bal, from, msg) {
            lemma_applied_counts_applications(
                seq.insert(from, msg.source_version.counter),
                after_transfer(bal, msg.op),
                q.drop_first(),
                a,
            );
        } else {
            lemma_applied_counts_applications(seq, bal, q.drop_first(), a);
        }
    }
}

/// Monotone dominance: in every well-formed process, and so after every
/// operation, each actor has been received at least as far as it has been
/// applied.
pub proof fn lemma_received_dominates_applied(p: &Proc, a: Identity)
    requires
        p.wf(),
    ensures
        count_of(p.received(), a) >= count_of(p.applied(), a),
{
}

/// Idempotent peer announcement: hearing of the same peer a second time
/// changes nothing and emits no command, so its account is opened once.
pub proof fn lemma_new_peer_idempotent(
    peers: Set<Identity>,
    initials: Map<Account, Money>,
    balances: Map<Account, Money>,
    me: Identity,
    p: Identity,
    b: Money,
    b2: Money,
)
    ensures
        ({
            let first = peer_step(peers, initials, balances, me, p, b);
            let second = peer_step(first.0, first.1, first.2, me, p, b2);
            &&& first.0.contains(p)
            &&& first.1 == if peers.contains(p) {
                initials
            } else {
                initials.insert(p, b)
            }
            &&& second.0 == first.0
            &&& second.1 == first.1
            &&& second.2 == first.2
            &&& second.3.len() == 0
        }),
{
}

/// No overdraft: applying a transfer that the ledger validated debits its
/// source by exactly its amount, which the source held, credits the
/// destination by exactly that amount, and leaves every other account as it
/// was; no balance goes below zero or wraps around.
pub proof fn lemma_no_overdraft(m: Map<Account, Money>, sender: Identity, t: Transfer)
    requires
        transfer_valid(m, sender, t),
    ensures
        balance_of(m, t.from) - t.amount >= 0,
        t.from != t.to ==> balance_of(after_transfer(m, t), t.from) == balance_of(m, t.from)
            - t.amount,
        t.from != t.to ==> balance_of(after_transfer(m, t), t.to) == balance_of(m, t.to)
            + t.amount,
        forall|a: Account|
            a != t.from && a != t.to ==> #[trigger] balance_of(after_transfer(m, t), a)
                == balance_of(m, a),
        t.from == t.to ==> after_transfer(m, t) == m,
{
}

} // verus!
