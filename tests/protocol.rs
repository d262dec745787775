use at2::bank::{Bank, Transfer};
use at2::clock::{Dot, VectorClock};
use at2::process::{Cmd, Msg, Proc};

fn msg(from: u64, to: u64, amount: u64, counter: u64) -> Msg {
    Msg {
        op: Transfer { from, to, amount },
        source_version: Dot { actor: from, counter },
    }
}

fn pair() -> (Proc, Proc) {
    let mut alice = Proc::new(1, 100);
    let mut bob = Proc::new(2, 0);
    alice.handle_new_peer(2, 0);
    bob.handle_new_peer(1, 100);
    (alice, bob)
}

#[test]
fn transfer_is_broadcast_and_applied_at_peer() {
    let (mut alice, mut bob) = pair();
    let cmds = alice.transfer(1, 2, 30);
    assert_eq!(cmds, vec![Cmd::BroadcastMsg { from: 1, msg: msg(1, 2, 30, 1) }]);
    // issuing does not apply anything locally
    assert_eq!(alice.applied_knowledge(1), 0);
    assert_eq!(alice.read(1), 100);

    assert!(bob.handle_msg(1, msg(1, 2, 30, 1)).is_empty());
    assert_eq!(bob.read(2), 30);
    assert_eq!(bob.read(1), 70);
    assert_eq!(bob.applied_knowledge(1), 1);

    assert!(alice.handle_msg(1, msg(1, 2, 30, 1)).is_empty());
    assert_eq!(alice.read(1), 70);
    assert_eq!(alice.read(2), 30);
}

#[test]
fn second_transfer_takes_next_stamp() {
    let (mut alice, _) = pair();
    alice.handle_msg(1, msg(1, 2, 30, 1));
    let cmds = alice.transfer(1, 2, 10);
    assert_eq!(cmds, vec![Cmd::BroadcastMsg { from: 1, msg: msg(1, 2, 10, 2) }]);
}

#[test]
fn transfer_with_insufficient_funds_emits_nothing() {
    let (alice, _) = pair();
    assert!(alice.transfer(1, 2, 101).is_empty());
    assert_eq!(alice.transfer(1, 2, 100).len(), 1);
}

#[test]
fn out_of_order_stamp_is_rejected_and_not_retained() {
    let (_, mut bob) = pair();
    assert!(!bob.on_delivery(1, msg(1, 2, 10, 2)));
    assert_eq!(bob.received_knowledge(1), 0);
    assert_eq!(bob.pending_len(), 0);

    assert!(bob.on_delivery(1, msg(1, 2, 10, 1)));
    assert_eq!(bob.received_knowledge(1), 1);
    bob.process_msg_queue();
    assert_eq!(bob.applied_knowledge(1), 1);
    assert_eq!(bob.read(2), 10);

    // the second message was dropped: it has to be delivered again
    assert_eq!(bob.pending_len(), 0);
    bob.handle_msg(1, msg(1, 2, 10, 2));
    assert_eq!(bob.applied_knowledge(1), 2);
    assert_eq!(bob.read(2), 20);
}

#[test]
fn admission_is_sequential() {
    let (_, mut bob) = pair();
    assert!(bob.on_delivery(1, msg(1, 2, 1, 1)));
    assert!(bob.on_delivery(1, msg(1, 2, 1, 2)));
    // duplicate and gap
    assert!(!bob.on_delivery(1, msg(1, 2, 1, 2)));
    assert!(!bob.on_delivery(1, msg(1, 2, 1, 4)));
    assert!(bob.on_delivery(1, msg(1, 2, 1, 3)));
    assert_eq!(bob.received_knowledge(1), 3);
    assert_eq!(bob.pending_len(), 3);
}

#[test]
fn mismatched_sender_is_discarded() {
    let (_, mut bob) = pair();
    assert!(!bob.on_delivery(2, msg(1, 2, 10, 1)));
    bob.handle_msg(2, msg(1, 2, 10, 1));
    assert_eq!(bob.received_knowledge(1), 0);
    assert_eq!(bob.received_knowledge(2), 0);
    assert_eq!(bob.read(2), 0);
    assert!(!bob.validate(2, &msg(1, 2, 10, 1)));
}

#[test]
fn forged_transfer_is_dropped() {
    let (_, mut bob) = pair();
    bob.handle_msg(1, msg(1, 2, 500, 1));
    assert_eq!(bob.received_knowledge(1), 1);
    assert_eq!(bob.applied_knowledge(1), 0);
    assert_eq!(bob.pending_len(), 0);
    assert_eq!(bob.read(1), 100);
    assert_eq!(bob.read(2), 0);
}

#[test]
fn applied_counter_grows_by_one_per_application() {
    let (_, mut bob) = pair();
    let m = msg(1, 2, 40, 1);
    assert!(bob.validate(1, &m));
    assert!(!bob.validate(1, &msg(1, 2, 40, 2)));
    bob.on_delivery(1, m);
    bob.process_msg_queue();
    assert_eq!(bob.applied_knowledge(1), 1);
    bob.handle_msg(1, msg(1, 2, 40, 2));
    assert_eq!(bob.applied_knowledge(1), 2);
    // a duplicate changes nothing
    bob.handle_msg(1, msg(1, 2, 40, 2));
    assert_eq!(bob.applied_knowledge(1), 2);
    assert_eq!(bob.read(1), 20);
}

#[test]
fn received_dominates_applied() {
    let (_, mut bob) = pair();
    bob.on_delivery(1, msg(1, 2, 500, 1));
    assert!(bob.received_knowledge(1) >= bob.applied_knowledge(1));
    bob.process_msg_queue();
    assert_eq!(bob.received_knowledge(1), 1);
    assert_eq!(bob.applied_knowledge(1), 0);
    bob.handle_msg(1, msg(1, 2, 5, 2));
    assert!(bob.received_knowledge(1) >= bob.applied_knowledge(1));
}

#[test]
fn batch_drops_message_whose_predecessor_failed() {
    let (_, mut bob) = pair();
    bob.on_delivery(1, msg(1, 2, 500, 1));
    bob.on_delivery(1, msg(1, 2, 10, 2));
    assert_eq!(bob.pending_len(), 2);
    bob.process_msg_queue();
    assert_eq!(bob.pending_len(), 0);
    assert_eq!(bob.applied_knowledge(1), 0);
    assert_eq!(bob.read(2), 0);
}

#[test]
fn validated_batch_applies_in_order() {
    let (_, mut bob) = pair();
    bob.on_delivery(1, msg(1, 2, 10, 1));
    bob.on_delivery(1, msg(1, 2, 20, 2));
    bob.process_msg_queue();
    assert_eq!(bob.applied_knowledge(1), 2);
    assert_eq!(bob.read(1), 70);
    assert_eq!(bob.read(2), 30);
}

#[test]
fn new_peer_is_registered_once() {
    let mut p = Proc::new(7, 50);
    let first = p.handle_new_peer(8, 20);
    assert_eq!(first, vec![Cmd::BroadcastNewPeer { new_peer: 7, initial_balance: 50 }]);
    assert!(p.knows_peer(8));
    assert_eq!(p.initial_balance(8), 20);
    let second = p.handle_new_peer(8, 99);
    assert!(second.is_empty());
    assert_eq!(p.initial_balance(8), 20);
    assert_eq!(p.read(8), 20);
}

#[test]
fn onboard_announces_self() {
    let p = Proc::new(3, 42);
    assert_eq!(p.id(), 3);
    assert_eq!(p.onboard(), vec![Cmd::BroadcastNewPeer { new_peer: 3, initial_balance: 42 }]);
    assert!(!p.knows_peer(3));
}

#[test]
fn two_spends_cannot_overdraw() {
    let (mut alice, _) = pair();
    let a = alice.transfer(1, 2, 60);
    assert_eq!(a.len(), 1);
    // built against the same balance: the ledger allows building both
    let b = alice.transfer(1, 2, 60);
    assert_eq!(b.len(), 1);
    alice.handle_msg(1, msg(1, 2, 60, 1));
    alice.handle_msg(1, msg(1, 2, 60, 2));
    assert_eq!(alice.read(1), 40);
    assert_eq!(alice.read(2), 60);
    assert_eq!(alice.applied_knowledge(1), 1);
}

#[test]
fn spending_whole_balance_leaves_zero() {
    let (mut alice, _) = pair();
    alice.handle_msg(1, msg(1, 2, 100, 1));
    assert_eq!(alice.read(1), 0);
    assert_eq!(alice.read(2), 100);
}

#[test]
fn vector_clock_counts() {
    let mut c = VectorClock::new();
    assert_eq!(c.get(5), 0);
    assert_eq!(c.next(5), Some(Dot { actor: 5, counter: 1 }));
    c.apply(Dot { actor: 5, counter: 3 });
    assert_eq!(c.get(5), 3);
    assert_eq!(c.get(6), 0);
    assert_eq!(c.next(5), Some(Dot { actor: 5, counter: 4 }));
    assert!(c.is_next(Dot { actor: 5, counter: 4 }));
    assert!(!c.is_next(Dot { actor: 5, counter: 3 }));
    assert!(c.contains(Dot { actor: 5, counter: 2 }));
    assert!(!c.contains(Dot { actor: 5, counter: 4 }));
    assert!(!c.contains(Dot { actor: 5, counter: 0 }));
    // a lower counter is ignored
    c.apply(Dot { actor: 5, counter: 1 });
    assert_eq!(c.get(5), 3);
}

#[test]
fn vector_clock_exhausted_counter() {
    let mut c = VectorClock::new();
    c.apply(Dot { actor: 1, counter: u64::MAX });
    assert_eq!(c.next(1), None);
    assert!(!c.is_next(Dot { actor: 1, counter: u64::MAX }));
}

#[test]
fn ledger_rejects_foreign_sender_and_overflow() {
    let mut b = Bank::new(1);
    b.onboard_account(1, 10);
    b.onboard_account(2, u64::MAX);
    let t = Transfer { from: 1, to: 2, amount: 1 };
    assert!(!b.validate(2, &t));
    assert!(!b.validate(1, &t));
    assert!(b.validate(1, &Transfer { from: 1, to: 2, amount: 0 }));
    assert!(b.validate(1, &Transfer { from: 1, to: 1, amount: 10 }));
    assert!(!b.validate(1, &Transfer { from: 1, to: 3, amount: 11 }));
    b.apply(Transfer { from: 1, to: 3, amount: 4 });
    assert_eq!(b.read(1), 6);
    assert_eq!(b.read(3), 4);
    assert_eq!(b.initial_balance(1), 10);
    assert_eq!(b.initial_balance(3), 0);
    assert_eq!(b.transfer(1, 3, 7), None);
    assert_eq!(b.transfer(1, 3, 6), Some(Transfer { from: 1, to: 3, amount: 6 }));
}
