//! The `Forwarder`: the test actor used to build daisy-chain and mesh
//! topologies. It recognises configuration instructions (senders, notifier,
//! forwarding multiplier) and action instructions (`TestData` sequences and
//! self-terminating `ChaosMonkey` messages), counting what it receives and
//! queueing what it forwards.

use vstd::arithmetic::div_mod::lemma_fundamental_div_mod_converse;
use vstd::arithmetic::mul::lemma_mul_inequality;
use vstd::prelude::*;

use crate::adapter::{Machine, MachineError, MachineSender};
use crate::message::{TestMessage, TestMessageSender};

verus! {

/// The sends queued by one `TestData` action: for each sender in order,
/// `forwarding_multiplier` messages, numbered consecutively from `start`.
pub open spec fn testdata_emission(senders: Seq<usize>, mult: nat, start: int) -> Seq<
    (usize, TestMessage),
> {
    Seq::new(
        senders.len() * mult,
        |k: int| (senders[k / mult as int], TestMessage::TestData((start + k) as usize)),
    )
}

/// The sends queued by one forwarded action of any other kind: for each
/// sender in order, `forwarding_multiplier` copies of the message.
pub open spec fn replicate_emission(senders: Seq<usize>, mult: nat, msg: TestMessage) -> Seq<
    (usize, TestMessage),
> {
    Seq::new(senders.len() * mult, |k: int| (senders[k / mult as int], msg))
}

/// The notification queued after an action: a `TestData` carrying the
/// received count, sent to the notifier exactly when the received count has
/// reached the configured notify count.
pub open spec fn notify_emission(
    received: usize,
    notify_count: usize,
    notify_sender: Option<usize>,
) -> Seq<(usize, TestMessage)> {
    match notify_sender {
        Option::Some(n) => if received == notify_count {
            seq![(n, TestMessage::TestData(received))]
        } else {
            Seq::empty()
        },
        Option::None => Seq::empty(),
    }
}

/// The test actor. One instance forwards every accepted action to its
/// configured senders, multiplied by its forwarding multiplier, and counts
/// received and sent messages.
pub struct Forwarder {
    /// The actor's id, assigned at construction.
    pub id: usize,
    /// The senders each accepted action is forwarded to.
    pub senders: Vec<TestMessageSender>,
    /// The count of messages received by this forwarder.
    pub received_count: usize,
    /// The count of messages sent by this forwarder.
    pub send_count: usize,
    /// Compared against `received_count` to decide notification.
    pub notify_count: usize,
    /// Sent a `TestData` carrying the received count when it is reached.
    pub notify_sender: Option<TestMessageSender>,
    /// How many copies of each accepted action go to each sender.
    pub forwarding_multiplier: usize,
    /// For `TestData`, the next sequence number expected.
    pub next_seq: usize,
}

/// The fields a configuration instruction sets, all unchanged.
pub open spec fn config_unchanged(pre: Forwarder, post: Forwarder) -> bool {
    &&& post.senders@ == pre.senders@
    &&& post.notify_count == pre.notify_count
    &&& post.notify_sender == pre.notify_sender
    &&& post.forwarding_multiplier == pre.forwarding_multiplier
}

/// The counters an action instruction steps, all unchanged.
pub open spec fn counters_unchanged(pre: Forwarder, post: Forwarder) -> bool {
    &&& post.received_count == pre.received_count
    &&& post.send_count == pre.send_count
    &&& post.next_seq == pre.next_seq
}

impl Forwarder {
    /// The state of a freshly constructed forwarder: no senders, no
    /// notifier, counters at zero, and a forwarding multiplier of one.
    pub open spec fn is_fresh(&self, id: usize) -> bool {
        &&& self.id == id
        &&& self.senders@.len() == 0
        &&& self.received_count == 0
        &&& self.send_count == 0
        &&& self.notify_count == 0
        &&& self.notify_sender is None
        &&& self.forwarding_multiplier == 1
        &&& self.next_seq == 0
    }

    /// A fresh forwarder: no senders, no notifier, counters at zero, and a
    /// forwarding multiplier of one.
    pub fn new(id: usize) -> (r: Self)
        ensures
            r.is_fresh(id),
            r.id == id,
            r.senders@ =~= Seq::<usize>::empty(),
            r.received_count == 0,
            r.send_count == 0,
            r.notify_count == 0,
            r.notify_sender is None,
            r.forwarding_multiplier == 1,
            r.next_seq == 0,
    {
        Forwarder {
            id,
            senders: Vec::new(),
            received_count: 0,
            send_count: 0,
            notify_count: 0,
            notify_sender: None,
            forwarding_multiplier: 1,
            next_seq: 0,
        }
    }

    /// The actor's id.
    pub fn get_id(&self) -> (r: usize)
        ensures
            r == self.id,
    {
        self.id
    }

    /// Get the current received count and clear the counters.
    pub fn get_and_clear_received_count(&mut self) -> (r: usize)
        ensures
            r == old(self).received_count,
            final(self).received_count == 0,
            final(self).send_count == 0,
            final(self).next_seq == old(self).next_seq,
            final(self).id == old(self).id,
            config_unchanged(*old(self), *final(self)),
    {
        let received_count = self.received_count;
        self.received_count = 0;
        self.send_count = 0;
        received_count
    }

    /// Forget every configured sender, the notifier included.
    fn drop_all_senders(&mut self)
        ensures
            final(self).senders@ =~= Seq::<usize>::empty(),
            final(self).notify_sender is None,
            final(self).notify_count == old(self).notify_count,
            final(self).forwarding_multiplier == old(self).forwarding_multiplier,
            final(self).id == old(self).id,
            counters_unchanged(*old(self), *final(self)),
    {
        self.senders.clear();
        self.notify_sender = None;
    }

    /// The machine limits under which a receive cannot overflow a counter.
    pub open spec fn receive_ready(&self, msg: &TestMessage) -> bool {
        &&& self.received_count < usize::MAX
        &&& self.next_seq < usize::MAX
        &&& self.send_count + self.senders@.len() * self.forwarding_multiplier <= usize::MAX
    }

    /// Queue one round of `TestData` forwards: `forwarding_multiplier`
    /// messages to each sender, numbered consecutively by `send_count`.
    fn emit_test_data(&mut self, sender: &mut MachineSender<TestMessage>)
        requires
            old(self).send_count + old(self).senders@.len() * old(self).forwarding_multiplier
                <= usize::MAX,
        ensures
            final(self).send_count == old(self).send_count + old(self).senders@.len() * old(
                self,
            ).forwarding_multiplier,
            final(self).received_count == old(self).received_count,
            final(self).next_seq == old(self).next_seq,
            final(self).id == old(self).id,
            config_unchanged(*old(self), *final(self)),
            final(sender).queued() == old(sender).queued() + testdata_emission(
                old(self).senders@,
                old(self).forwarding_multiplier as nat,
                old(self).send_count as int,
            ),
    {
        let ghost start = self.send_count as int;
        let ghost mult = self.forwarding_multiplier as nat;
        let ghost all = testdata_emission(self.senders@, mult, start);
        let mut i: usize = 0;
        proof {
            assert(sender.queued() =~= old(sender).queued() + all.subrange(0, 0));
        }
        while i < self.senders.len()
            invariant
                i <= self.senders@.len(),
                config_unchanged(*old(self), *self),
                self.id == old(self).id,
                self.received_count == old(self).received_count,
                self.next_seq == old(self).next_seq,
                self.send_count == start + i * mult,
                i * mult >= 0,
                start + self.senders@.len() * mult <= usize::MAX,
                mult == self.forwarding_multiplier,
                all == testdata_emission(self.senders@, mult, start),
                all.len() == self.senders@.len() * mult,
                sender.queued() =~= old(sender).queued() + all.subrange(0, i * mult),
            decreases self.senders@.len() - i,
        {
            let mut j: usize = 0;
            proof {
                lemma_mul_inequality(i as int + 1, self.senders@.len() as int, mult as int);
                assert((i + 1) * mult == i * mult + mult) by (nonlinear_arith);
                vstd::arithmetic::mul::lemma_mul_nonnegative(i as int, mult as int);
                vstd::arithmetic::mul::lemma_mul_nonnegative(i as int + 1, mult as int);
            }
            while j < self.forwarding_multiplier
                invariant
                    i < self.senders@.len(),
                    j <= mult,
                    config_unchanged(*old(self), *self),
                    self.id == old(self).id,
                    self.received_count == old(self).received_count,
                    self.next_seq == old(self).next_seq,
                    self.send_count == start + i * mult + j,
                    i * mult >= 0,
                    start + self.senders@.len() * mult <= usize::MAX,
                    (i + 1) * mult == i * mult + mult,
                    i * mult + mult <= self.senders@.len() * mult,
                    mult == self.forwarding_multiplier,
                    all == testdata_emission(self.senders@, mult, start),
                    all.len() == self.senders@.len() * mult,
                    sender.queued() =~= old(sender).queued() + all.subrange(0, i * mult + j),
                decreases mult - j,
            {
                let ghost k = i * mult + j;
                proof {
                    lemma_fundamental_div_mod_converse(k as int, mult as int, i as int, j as int);
                    assert(all[k as int] == (
                        self.senders@[i as int],
                        TestMessage::TestData((start + k) as usize),
                    ));
                }
                let target = self.senders[i];
                sender.send(target, TestMessage::TestData(self.send_count));
                self.send_count = self.send_count + 1;
                j = j + 1;
                proof {
                    assert(sender.queued() =~= old(sender).queued() + all.subrange(
                        0,
                        i * mult + j,
                    ));
                }
            }
            i = i + 1;
        }
        proof {
            assert(all.subrange(0, all.len() as int) =~= all);
        }
    }

    /// Queue one round of copies of `msg`: `forwarding_multiplier` copies to
    /// each sender. Only messages that carry no sender list are replicated.
    fn emit_replicated(&self, msg: &TestMessage, sender: &mut MachineSender<TestMessage>)
        requires
            !(msg is AddSenders),
        ensures
            final(sender).queued() == old(sender).queued() + replicate_emission(
                self.senders@,
                self.forwarding_multiplier as nat,
                *msg,
            ),
    {
        let ghost mult = self.forwarding_multiplier as nat;
        let ghost all = replicate_emission(self.senders@, mult, *msg);
        let mut i: usize = 0;
        proof {
            assert(sender.queued() =~= old(sender).queued() + all.subrange(0, 0));
            assert(all.len() == self.senders@.len() * mult);
        }
        while i < self.senders.len()
            invariant
                i <= self.senders@.len(),
                i * mult >= 0,
                !(msg is AddSenders),
                mult == self.forwarding_multiplier,
                all == replicate_emission(self.senders@, mult, *msg),
                all.len() == self.senders@.len() * mult,
                sender.queued() =~= old(sender).queued() + all.subrange(0, i * mult),
            decreases self.senders@.len() - i,
        {
            let mut j: usize = 0;
            proof {
                lemma_mul_inequality(i as int + 1, self.senders@.len() as int, mult as int);
                assert((i + 1) * mult == i * mult + mult) by (nonlinear_arith);
                vstd::arithmetic::mul::lemma_mul_nonnegative(i as int, mult as int);
                vstd::arithmetic::mul::lemma_mul_nonnegative(i as int + 1, mult as int);
            }
            while j < self.forwarding_multiplier
                invariant
                    i < self.senders@.len(),
                    j <= mult,
                    i * mult >= 0,
                    !(msg is AddSenders),
                    (i + 1) * mult == i * mult + mult,
                    i * mult + mult <= self.senders@.len() * mult,
                    mult == self.forwarding_multiplier,
                    all == replicate_emission(self.senders@, mult, *msg),
                    all.len() == self.senders@.len() * mult,
                    sender.queued() =~= old(sender).queued() + all.subrange(0, i * mult + j),
                decreases mult - j,
            {
                let ghost k = i * mult + j;
                proof {
                    lemma_fundamental_div_mod_converse(k as int, mult as int, i as int, j as int);
                    assert(all[k as int] == (self.senders@[i as int], *msg));
                }
                let target = self.senders[i];
                let copy = duplicate_plain(msg);
                sender.send(target, copy);
                j = j + 1;
                proof {
                    assert(sender.queued() =~= old(sender).queued() + all.subrange(
                        0,
                        i * mult + j,
                    ));
                }
            }
            i = i + 1;
        }
        proof {
            assert(all.subrange(0, all.len() as int) =~= all);
        }
    }

    /// Queue the notification if the received count has reached the notify
    /// count and a notifier is registered.
    fn handle_notification(&self, sender: &mut MachineSender<TestMessage>)
        ensures
            final(sender).queued() == old(sender).queued() + notify_emission(
                self.received_count,
                self.notify_count,
                self.notify_sender,
            ),
    {
        if self.received_count == self.notify_count {
            if let Some(notifier) = self.notify_sender {
                sender.send(notifier, TestMessage::TestData(self.received_count));
                proof {
                    assert(sender.queued() =~= old(sender).queued() + notify_emission(
                        self.received_count,
                        self.notify_count,
                        self.notify_sender,
                    ));
                }
                return ;
            }
        }
        proof {
            assert(sender.queued() =~= old(sender).queued() + notify_emission(
                self.received_count,
                self.notify_count,
                self.notify_sender,
            ));
        }
    }

    /// Relies on `rand::random_range`: a uniform draw from `0 .. n`.
    /// The crate documents that the result lies in the half-open range and
    /// that an empty range panics, so a positive `n` is required.
    #[verifier::external_body]
    pub(crate) fn get_monkey_fwd(n: usize) -> (r: usize)
        requires
            n > 0,
        ensures
            r < n,
    {
        rand::random_range(0..n)
    }

    /// Handle one instruction.
    ///
    /// Configuration instructions reconfigure the forwarder and queue
    /// nothing. Action instructions first have their sequence validated — a
    /// `TestData` must carry the expected sequence number, or zero to reset
    /// the sequence — then bump the received count, queue their forwards,
    /// and finally queue the notification if the received count has reached
    /// the notify count.
    pub fn receive(&mut self, message: TestMessage, sender: &mut MachineSender<TestMessage>) -> (r:
        Result<(), MachineError>)
        requires
            old(self).receive_ready(&message),
        ensures
            final(self).id == old(self).id,
            ({
                let pre = *old(self);
                let post = *final(self);
                let out0 = old(sender).queued();
                let out1 = final(sender).queued();
                match message {
                    TestMessage::Notify(n, c) => r is Ok && out1 == out0 && counters_unchanged(
                        pre,
                        post,
                    ) && post == (Forwarder { notify_sender: Some(n), notify_count: c, ..pre }),
                    TestMessage::AddSender(s) => r is Ok && out1 == out0 && counters_unchanged(
                        pre,
                        post,
                    ) && post.senders@ == pre.senders@.push(s) && post.notify_count
                        == pre.notify_count && post.notify_sender == pre.notify_sender
                        && post.forwarding_multiplier == pre.forwarding_multiplier,
                    TestMessage::AddSenders(v) => r is Ok && out1 == out0 && counters_unchanged(
                        pre,
                        post,
                    ) && post.senders@ == v@ && post.notify_count == pre.notify_count
                        && post.notify_sender == pre.notify_sender && post.forwarding_multiplier
                        == pre.forwarding_multiplier,
                    TestMessage::ForwardingMultiplier(m) => r is Ok && out1 == out0
                        && counters_unchanged(pre, post) && post == (Forwarder {
                        forwarding_multiplier: m,
                        ..pre
                    }),
                    TestMessage::RemoveAllSenders => r is Ok && out1 == out0 && counters_unchanged(
                        pre,
                        post,
                    ) && post.senders@ =~= Seq::<usize>::empty() && post.notify_sender is None
                        && post.notify_count == pre.notify_count && post.forwarding_multiplier
                        == pre.forwarding_multiplier,
                    TestMessage::TestData(seq) => if seq == pre.next_seq || seq == 0 {
                        &&& r is Ok
                        &&& config_unchanged(pre, post)
                        &&& post.received_count == pre.received_count + 1
                        &&& post.next_seq == if seq == pre.next_seq {
                            pre.next_seq + 1
                        } else {
                            1
                        }
                        &&& post.send_count == pre.send_count + pre.senders@.len()
                            * pre.forwarding_multiplier
                        &&& out1 == out0 + testdata_emission(
                            pre.senders@,
                            pre.forwarding_multiplier as nat,
                            pre.send_count as int,
                        ) + notify_emission(
                            post.received_count,
                            pre.notify_count,
                            pre.notify_sender,
                        )
                    } else {
                        r == Result::<(), MachineError>::Err(
                            MachineError::SequenceError { expected: pre.next_seq, received: seq },
                        ) && post == pre && out1 == out0
                    },
                    TestMessage::ChaosMonkey { .. } => {
                        &&& r is Ok
                        &&& config_unchanged(pre, post)
                        &&& post.received_count == pre.received_count + 1
                        &&& post.send_count == pre.send_count
                        &&& post.next_seq == pre.next_seq
                        &&& if message.can_advance_spec() {
                            if pre.senders@.len() > 0 {
                                exists|i: int|
                                    0 <= i < pre.senders@.len() && out1 == out0.push(
                                        (pre.senders@[i], message.advance_spec()),
                                    ) + notify_emission(
                                        post.received_count,
                                        pre.notify_count,
                                        pre.notify_sender,
                                    )
                            } else {
                                out1 == out0 + notify_emission(
                                    post.received_count,
                                    pre.notify_count,
                                    pre.notify_sender,
                                )
                            }
                        } else {
                            out1 == out0 + (match pre.notify_sender {
                                Option::Some(n) => seq![(n, TestMessage::TestData(0usize))],
                                Option::None => Seq::empty(),
                            }) + notify_emission(
                                post.received_count,
                                pre.notify_count,
                                pre.notify_sender,
                            )
                        }
                    },
                    TestMessage::TestCallback(_, _) => r is Ok && config_unchanged(pre, post)
                        && post.received_count == pre.received_count + 1 && post.send_count
                        == pre.send_count && post.next_seq == pre.next_seq && out1 == out0
                        + notify_emission(post.received_count, pre.notify_count, pre.notify_sender),
                    _ => r is Ok && config_unchanged(pre, post) && post.received_count
                        == pre.received_count + 1 && post.send_count == pre.send_count
                        && post.next_seq == pre.next_seq && out1 == out0 + replicate_emission(
                        pre.senders@,
                        pre.forwarding_multiplier as nat,
                        message,
                    ) + notify_emission(post.received_count, pre.notify_count, pre.notify_sender),
                }
            }),
    {
        match message {
            TestMessage::Notify(n, c) => {
                self.notify_sender = Some(n);
                self.notify_count = c;
                Ok(())
            },
            TestMessage::AddSender(s) => {
                self.senders.push(s);
                Ok(())
            },
            TestMessage::AddSenders(v) => {
                self.senders = v;
                Ok(())
            },
            TestMessage::ForwardingMultiplier(m) => {
                self.forwarding_multiplier = m;
                Ok(())
            },
            TestMessage::RemoveAllSenders => {
                self.drop_all_senders();
                Ok(())
            },
            TestMessage::TestData(seq) => {
                if seq == self.next_seq {
                    self.next_seq = self.next_seq + 1;
                } else if seq == 0 {
                    self.next_seq = 1;
                } else {
                    return Err(
                        MachineError::SequenceError { expected: self.next_seq, received: seq },
                    );
                }
                self.received_count = self.received_count + 1;
                self.emit_test_data(sender);
                self.handle_notification(sender);
                Ok(())
            },
            TestMessage::ChaosMonkey { counter, max, mutation } => {
                self.received_count = self.received_count + 1;
                let msg = TestMessage::ChaosMonkey { counter, max, mutation };
                if msg.can_advance() {
                    if self.senders.len() > 0 {
                        let idx = Self::get_monkey_fwd(self.senders.len());
                        let target = self.senders[idx];
                        sender.send(target, msg.advance());
                        self.handle_notification(sender);
                        proof {
                            assert(0 <= idx < old(self).senders@.len() && sender.queued() == old(
                                sender,
                            ).queued().push((old(self).senders@[idx as int], message.advance_spec()))
                                + notify_emission(
                                self.received_count,
                                old(self).notify_count,
                                old(self).notify_sender,
                            ));
                        }
                        return Ok(());
                    }
                } else {
                    if let Some(notifier) = self.notify_sender {
                        sender.send(notifier, TestMessage::TestData(0));
                        self.handle_notification(sender);
                        proof {
                            assert(sender.queued() =~= old(sender).queued() + seq![
                                (notifier, TestMessage::TestData(0usize)),
                            ] + notify_emission(
                                self.received_count,
                                old(self).notify_count,
                                old(self).notify_sender,
                            ));
                        }
                        return Ok(());
                    }
                }
                self.handle_notification(sender);
                Ok(())
            },
            TestMessage::TestCallback(_s, _test_struct) => {
                self.received_count = self.received_count + 1;
                self.handle_notification(sender);
                Ok(())
            },
            TestMessage::Test => {
                self.received_count = self.received_count + 1;
                let msg = TestMessage::Test;
                self.emit_replicated(&msg, sender);
                self.handle_notification(sender);
                Ok(())
            },
            TestMessage::TestStruct(s) => {
                self.received_count = self.received_count + 1;
                let msg = TestMessage::TestStruct(s);
                self.emit_replicated(&msg, sender);
                self.handle_notification(sender);
                Ok(())
            },
        }
    }
}

// An exact copy of a message that carries no sender list; the variants that
// reach the forwarding branch all qualify.
fn duplicate_plain(msg: &TestMessage) -> (r: TestMessage)
    requires
        !(msg is AddSenders),
    ensures
        r == *msg,
{
    match msg {
        TestMessage::Test => TestMessage::Test,
        TestMessage::TestData(seq) => TestMessage::TestData(*seq),
        TestMessage::TestStruct(s) => TestMessage::TestStruct(*s),
        TestMessage::TestCallback(sender, s) => TestMessage::TestCallback(*sender, *s),
        TestMessage::AddSender(sender) => TestMessage::AddSender(*sender),
        TestMessage::AddSenders(_) => TestMessage::RemoveAllSenders,
        TestMessage::RemoveAllSenders => TestMessage::RemoveAllSenders,
        TestMessage::Notify(sender, count) => TestMessage::Notify(*sender, *count),
        TestMessage::ForwardingMultiplier(count) => TestMessage::ForwardingMultiplier(*count),
        TestMessage::ChaosMonkey { counter, max, mutation } => TestMessage::ChaosMonkey {
            counter: *counter,
            max: *max,
            mutation: *mutation,
        },
    }
}

impl Machine<TestMessage> for Forwarder {
    open spec fn ready_to_receive(&self, cmd: &TestMessage) -> bool {
        self.receive_ready(cmd)
    }

    fn receive(&mut self, cmd: TestMessage, sender: &mut MachineSender<TestMessage>) -> Result<
        (),
        MachineError,
    > {
        self.receive(cmd, sender)
    }

    fn connected(&mut self, _id: u128) {
    }

    fn disconnected(&mut self)
        ensures
            final(self).senders@ =~= Seq::<usize>::empty(),
            final(self).notify_sender is None,
    {
        self.drop_all_senders();
    }
}

} // verus!
