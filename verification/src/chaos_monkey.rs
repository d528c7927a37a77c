//! The chaos-monkey harness: a fully connected mesh of forwarders in which
//! a message received by any machine is forwarded to a uniformly random
//! machine, including itself. The message's counter climbs to the inflection
//! value, then descends; at zero the receiving machine sends one terminal
//! notification to the notifier, which fires the completion handle once all
//! injected messages have terminated.

use vstd::prelude::*;

use crate::adapter::MachineSender;
use crate::forwarder::{notify_emission, testdata_emission, Forwarder};
use crate::message::{
    advance_measure, chaos_steps, lemma_chaos_advance_terminates, lemma_chaos_steps_of_injected,
    ChaosMonkeyMutation, TestMessage,
};

verus! {

/// The sum of the received counts across a sequence of forwarders.
pub open spec fn total_received(s: Seq<Forwarder>) -> int
    decreases s.len(),
{
    if s.len() == 0 {
        0
    } else {
        total_received(s.drop_last()) + s.last().received_count
    }
}

/// Replacing one forwarder changes the total by the difference of its
/// received count.
proof fn lemma_total_received_update(s: Seq<Forwarder>, i: int, fw: Forwarder)
    requires
        0 <= i < s.len(),
    ensures
        total_received(s.update(i, fw)) == total_received(s) + fw.received_count
            - s[i].received_count,
    decreases s.len(),
{
    if i == s.len() - 1 {
        assert(s.update(i, fw).drop_last() =~= s.drop_last());
    } else {
        assert(s.update(i, fw).drop_last() =~= s.drop_last().update(i, fw));
        lemma_total_received_update(s.drop_last(), i, fw);
    }
}

/// Every forwarder's received count is bounded by the total.
proof fn lemma_total_received_bound(s: Seq<Forwarder>, i: int)
    requires
        0 <= i < s.len(),
    ensures
        s[i].received_count <= total_received(s),
        total_received(s) >= 0,
    decreases s.len(),
{
    if s.len() > 0 {
        if i == s.len() - 1 {
            lemma_total_received_nonneg(s.drop_last());
        } else {
            lemma_total_received_bound(s.drop_last(), i);
        }
    }
}

proof fn lemma_total_received_nonneg(s: Seq<Forwarder>)
    ensures
        total_received(s) >= 0,
    decreases s.len(),
{
    if s.len() > 0 {
        lemma_total_received_nonneg(s.drop_last());
    }
}

/// A mutating advance strictly shrinks a chaos message's step measure.
proof fn lemma_advance_decreases(m: TestMessage)
    requires
        m is ChaosMonkey,
    ensures
        advance_measure(m) >= 0,
        (advance_measure(m) == 0) == !m.can_advance_spec(),
        m.can_advance_spec() ==> advance_measure(m.advance_spec()) == advance_measure(m) - 1,
        m.can_advance_spec() ==> m.advance_spec() is ChaosMonkey,
{
    match m {
        TestMessage::ChaosMonkey { counter, max, mutation } => {
            lemma_chaos_advance_terminates(counter, max, mutation);
        },
        _ => {},
    }
}

/// `ChaosMonkey` sets up a mesh of machines in which a message received by
/// any machine can be forwarded to any machine. Each injected message climbs
/// to the inflection value and descends back to zero, where its last
/// receiver notifies the notifier; the notifier fires the completion handle
/// when every injected message has terminated.
pub struct ChaosMonkeyDriver {
    /// The number of forwarders in the mesh, the notifier not included.
    pub machine_count: usize,
    /// The number of messages injected.
    pub message_count: usize,
    /// The counter value at which a message's mutation flips to decrement.
    pub inflection_value: u32,
    /// Whether the real harness uses bounded mailboxes.
    pub bound_queue: bool,
    /// The sender handles of the mesh forwarders.
    pub senders: Vec<usize>,
    /// The mesh forwarders, the notifier last.
    pub forwarders: Vec<Forwarder>,
    /// How many completion notifications the notifier has emitted.
    pub completions: usize,
}

impl Default for ChaosMonkeyDriver {
    /// An unwired driver with the default mesh shape.
    fn default() -> (r: Self)
        ensures
            r.machine_count == 3000,
            r.message_count == 200,
            r.inflection_value == 99,
            r.bound_queue,
            r.forwarders@.len() == 0,
            r.completions == 0,
    {
        ChaosMonkeyDriver {
            machine_count: 3000,
            message_count: 200,
            inflection_value: 99,
            bound_queue: true,
            senders: Vec::new(),
            forwarders: Vec::new(),
            completions: 0,
        }
    }
}

impl ChaosMonkeyDriver {
    /// The driver holds a freshly wired mesh: every forwarder knows every
    /// forwarder's sender and notifies the notifier per terminal message;
    /// the notifier expects `message_count` terminals and then fires the
    /// completion handle; every counter is zero.
    pub open spec fn mesh_wired(&self) -> bool {
        let m = self.machine_count as int;
        &&& 1 <= m < usize::MAX
        &&& self.forwarders@.len() == m + 1
        &&& self.senders@.len() == m
        &&& (forall|i: int| 0 <= i < m ==> (#[trigger] self.senders@[i]) == i)
        &&& self.completions == 0
        &&& forall|k: int|
            0 <= k < m ==> {
                let fw = (#[trigger] self.forwarders@[k]);
                &&& fw.received_count == 0
                &&& fw.send_count == 0
                &&& fw.next_seq == 0
                &&& fw.id == k + 1
                &&& fw.senders@.len() == m
                &&& (forall|i: int| 0 <= i < m ==> (#[trigger] fw.senders@[i]) == i)
                &&& fw.forwarding_multiplier == 1
                &&& fw.notify_sender == Option::Some(m as usize)
                &&& fw.notify_count == 0
            }
        &&& ({
            let nf = self.forwarders@[m];
            &&& nf.received_count == 0
            &&& nf.send_count == 0
            &&& nf.next_seq == 0
            &&& nf.id == m + 1
            &&& nf.senders@.len() == 0
            &&& nf.forwarding_multiplier == 1
            &&& nf.notify_sender == Option::Some((m + 1) as usize)
            &&& nf.notify_count == self.message_count
        })
    }

    /// Create the mesh and wire it: every forwarder learns every sender and
    /// the notifier, and the notifier is told to notify the completion
    /// handle after `message_count` terminal messages.
    pub fn setup(&mut self)
        requires
            1 <= old(self).machine_count < usize::MAX,
        ensures
            final(self).mesh_wired(),
            final(self).machine_count == old(self).machine_count,
            final(self).message_count == old(self).message_count,
            final(self).inflection_value == old(self).inflection_value,
    {
        let m = self.machine_count;
        let mut forwarders: Vec<Forwarder> = Vec::new();
        let mut k: usize = 0;
        while k < m
            invariant
                k <= m < usize::MAX,
                forwarders@.len() == k,
                forall|j: int|
                    0 <= j < k ==> (#[trigger] forwarders@[j]).is_fresh((j + 1) as usize),
            decreases m - k,
        {
            forwarders.push(Forwarder::new(k + 1));
            k = k + 1;
        }
        forwarders.push(Forwarder::new(m + 1));
        // Wire the mesh, exactly as the harness would by sending
        // configuration instructions into each mailbox in turn.
        let mut scratch: MachineSender<TestMessage> = MachineSender::new();
        k = 0;
        while k < m
            invariant
                k <= m < usize::MAX,
                forwarders@.len() == m + 1,
                forall|j: int|
                    k <= j < m + 1 ==> (#[trigger] forwarders@[j]).is_fresh((j + 1) as usize),
                forall|j: int|
                    0 <= j < k ==> {
                        let fw = (#[trigger] forwarders@[j]);
                        &&& fw.received_count == 0
                        &&& fw.send_count == 0
                        &&& fw.next_seq == 0
                        &&& fw.id == j + 1
                        &&& fw.senders@.len() == m
                        &&& (forall|i: int| 0 <= i < m ==> (#[trigger] fw.senders@[i]) == i)
                        &&& fw.forwarding_multiplier == 1
                        &&& fw.notify_sender == Option::Some(m as usize)
                        &&& fw.notify_count == 0
                    },
            decreases m - k,
        {
            let handles = mesh_handles(m);
            let fw = &mut forwarders[k];
            let r1 = fw.receive(TestMessage::AddSenders(handles), &mut scratch);
            let r2 = fw.receive(TestMessage::Notify(m, 0), &mut scratch);
            proof {
                assert(r1 is Ok && r2 is Ok);
            }
            k = k + 1;
        }
        let nf = &mut forwarders[m];
        let r3 = nf.receive(TestMessage::Notify(m + 1, self.message_count), &mut scratch);
        proof {
            assert(r3 is Ok);
        }
        let handles = mesh_handles(m);
        self.senders = handles;
        self.forwarders = forwarders;
        self.completions = 0;
    }

    /// Tear down the mesh.
    pub fn teardown(_driver: Self) {
    }

    /// Drive one run: inject `message_count` chaos messages, each starting
    /// at counter zero with the increment mutation, into uniformly random
    /// forwarders, and deliver every forwarded message until all have
    /// terminated.
    ///
    /// Law: chaos-monkey termination. Every injected message produces
    /// exactly one terminal notification at the notifier, so the sum of all
    /// received counts is `message_count` times `chaos_steps + 2`: the
    /// forwarder hops of one message plus its terminal delivery and the
    /// notifier's receive. The completion handle fires exactly once
    /// (provided any message was injected).
    pub fn run(&mut self)
        requires
            old(self).mesh_wired(),
            old(self).message_count * (chaos_steps(
                0,
                old(self).inflection_value,
                ChaosMonkeyMutation::Increment,
            ) + 2) <= usize::MAX,
        ensures
            final(self).forwarders@.len() == old(self).machine_count + 1,
            total_received(final(self).forwarders@) == old(self).message_count * (chaos_steps(
                0,
                old(self).inflection_value,
                ChaosMonkeyMutation::Increment,
            ) + 2),
            final(self).completions == ({
                if old(self).message_count > 0 {
                    1int
                } else {
                    0int
                }
            }),
    {
        let m = self.machine_count;
        let mc = self.message_count;
        let max_v = self.inflection_value;
        let ghost full = chaos_steps(0, max_v, ChaosMonkeyMutation::Increment);
        proof {
            lemma_chaos_advance_terminates(0, max_v, ChaosMonkeyMutation::Increment);
            lemma_total_received_nonneg(self.forwarders@);
            assert(total_received(self.forwarders@) == 0) by {
                lemma_total_received_zero(self.forwarders@);
            }
        }
        let mut done: usize = 0;
        while done < mc
            invariant
                self.machine_count == m,
                self.message_count == mc,
                self.inflection_value == max_v,
                full == chaos_steps(0, max_v, ChaosMonkeyMutation::Increment),
                full >= 0,
                mc * (full + 2) <= usize::MAX,
                done <= mc,
                1 <= m < usize::MAX,
                self.forwarders@.len() == m + 1,
                forall|k: int|
                    0 <= k < m ==> {
                        let fw = (#[trigger] self.forwarders@[k]);
                        &&& fw.send_count == 0
                        &&& fw.next_seq == 0
                        &&& fw.senders@.len() == m
                        &&& (forall|i: int| 0 <= i < m ==> (#[trigger] fw.senders@[i]) == i)
                        &&& fw.forwarding_multiplier == 1
                        &&& fw.notify_sender == Option::Some(m as usize)
                        &&& fw.notify_count == 0
                    },
                ({
                    let nf = self.forwarders@[m as int];
                    &&& nf.received_count == done
                    &&& nf.send_count == 0
                    &&& nf.next_seq == (if done == 0 {
                        0int
                    } else {
                        1int
                    })
                    &&& nf.senders@.len() == 0
                    &&& nf.forwarding_multiplier == 1
                    &&& nf.notify_sender == Option::Some((m + 1) as usize)
                    &&& nf.notify_count == mc
                }),
                total_received(self.forwarders@) == done * (full + 2),
                self.completions == (if done == mc && mc > 0 {
                    1int
                } else {
                    0int
                }),
            decreases mc - done,
        {
            proof {
                lemma_mul_bound_step(done as int, full, mc as int);
            }
            let mut msg = TestMessage::ChaosMonkey {
                counter: 0,
                max: max_v,
                mutation: ChaosMonkeyMutation::Increment,
            };
            let mut target = Forwarder::get_monkey_fwd(m);
            while msg.can_advance()
                invariant
                    self.machine_count == m,
                    self.message_count == mc,
                    self.inflection_value == max_v,
                    full == chaos_steps(0, max_v, ChaosMonkeyMutation::Increment),
                    mc * (full + 2) <= usize::MAX,
                    done < mc,
                    1 <= m < usize::MAX,
                    target < m,
                    msg is ChaosMonkey,
                    0 <= advance_measure(msg) <= full,
                    self.forwarders@.len() == m + 1,
                    forall|k: int|
                        0 <= k < m ==> {
                            let fw = (#[trigger] self.forwarders@[k]);
                            &&& fw.send_count == 0
                            &&& fw.next_seq == 0
                            &&& fw.senders@.len() == m
                            &&& (forall|i: int| 0 <= i < m ==> (#[trigger] fw.senders@[i]) == i)
                            &&& fw.forwarding_multiplier == 1
                            &&& fw.notify_sender == Option::Some(m as usize)
                            &&& fw.notify_count == 0
                        },
                    ({
                        let nf = self.forwarders@[m as int];
                        &&& nf.received_count == done
                        &&& nf.send_count == 0
                        &&& nf.next_seq == (if done == 0 {
                            0int
                        } else {
                            1int
                        })
                        &&& nf.senders@.len() == 0
                        &&& nf.forwarding_multiplier == 1
                        &&& nf.notify_sender == Option::Some((m + 1) as usize)
                        &&& nf.notify_count == mc
                    }),
                    total_received(self.forwarders@) == done * (full + 2) + (full
                        - advance_measure(msg)),
                    self.completions == 0,
                decreases advance_measure(msg),
            {
                proof {
                    lemma_advance_decreases(msg);
                    lemma_total_received_bound(self.forwarders@, target as int);
                    lemma_mul_bound_step(done as int, full, mc as int);
                }
                let ghost pre_forwarders = self.forwarders@;
                let ghost pre_msg = msg;
                let mut buf: MachineSender<TestMessage> = MachineSender::new();
                let ghost buf0 = buf.queued();
                let fw = &mut self.forwarders[target];
                let res = fw.receive(msg, &mut buf);
                let ghost out_all = buf.queued();
                proof {
                    assert(res is Ok);
                    lemma_total_received_update(
                        pre_forwarders,
                        target as int,
                        self.forwarders@[target as int],
                    );
                    let pre_fw = pre_forwarders[target as int];
                    let post_fw = self.forwarders@[target as int];
                    let note = notify_emission(
                        post_fw.received_count,
                        pre_fw.notify_count,
                        pre_fw.notify_sender,
                    );
                    assert(note =~= Seq::<(usize, TestMessage)>::empty());
                    let i = choose|i: int|
                        0 <= i < pre_fw.senders@.len() && out_all == buf0.push(
                            (pre_fw.senders@[i], pre_msg.advance_spec()),
                        ) + note;
                    assert(out_all =~= buf0.push((pre_fw.senders@[i], pre_msg.advance_spec())));
                    assert(out_all.len() == 1);
                    assert(out_all[0] == (pre_fw.senders@[i], pre_msg.advance_spec()));
                    assert(pre_fw.senders@[i] == i);
                }
                let mut pairs = buf.drain();
                let pair = pairs.remove(0);
                proof {
                    assert(pair == out_all[0]);
                    assert(pair.0 < m);
                }
                target = pair.0;
                msg = pair.1;
            }
            // The message is terminal: its last receiver sends the terminal
            // notification to the notifier.
            proof {
                lemma_advance_decreases(msg);
                lemma_total_received_bound(self.forwarders@, target as int);
                lemma_mul_bound_step(done as int, full, mc as int);
            }
            let ghost pre_forwarders = self.forwarders@;
            let mut buf: MachineSender<TestMessage> = MachineSender::new();
            let fw = &mut self.forwarders[target];
            let res = fw.receive(msg, &mut buf);
            let ghost out_all = buf.queued();
            proof {
                assert(res is Ok);
                lemma_total_received_update(
                    pre_forwarders,
                    target as int,
                    self.forwarders@[target as int],
                );
                let pre_fw = pre_forwarders[target as int];
                let post_fw = self.forwarders@[target as int];
                assert(notify_emission(
                    post_fw.received_count,
                    pre_fw.notify_count,
                    pre_fw.notify_sender,
                ) =~= Seq::<(usize, TestMessage)>::empty());
                assert(out_all =~= seq![(m, TestMessage::TestData(0usize))]);
            }
            let mut pairs = buf.drain();
            let terminal = pairs.remove(0);
            proof {
                assert(terminal == (m, TestMessage::TestData(0usize)));
            }
            // The notifier counts the terminal and, once every injected
            // message has terminated, fires the completion handle.
            proof {
                lemma_total_received_bound(self.forwarders@, m as int);
            }
            let ghost mid_forwarders = self.forwarders@;
            let mut buf2: MachineSender<TestMessage> = MachineSender::new();
            let nf = &mut self.forwarders[m];
            let res2 = nf.receive(terminal.1, &mut buf2);
            let ghost out2 = buf2.queued();
            proof {
                assert(res2 is Ok);
                lemma_total_received_update(
                    mid_forwarders,
                    m as int,
                    self.forwarders@[m as int],
                );
                let pre_nf = mid_forwarders[m as int];
                let post_nf = self.forwarders@[m as int];
                assert(testdata_emission(pre_nf.senders@, 1nat, pre_nf.send_count as int)
                    =~= Seq::<(usize, TestMessage)>::empty());
                if post_nf.received_count == mc {
                    assert(out2 =~= seq![
                        ((m + 1) as usize, TestMessage::TestData(post_nf.received_count)),
                    ]);
                } else {
                    assert(out2 =~= Seq::<(usize, TestMessage)>::empty());
                }
            }
            let notifications = buf2.drain();
            if notifications.len() > 0 {
                self.completions = self.completions + 1;
            }
            proof {
                assert((done + 1) * (full + 2) == done * (full + 2) + (full + 2))
                    by (nonlinear_arith);
            }
            done = done + 1;
        }
        proof {
            if mc == 0 {
                assert(total_received(self.forwarders@) == 0);
                vstd::arithmetic::mul::lemma_mul_basics(full + 2);
            }
        }
    }
}

/// Law: for a positive inflection value, the run total of
/// `ChaosMonkeyDriver::run` has the closed form
/// `(inflection + 1) * 2 * message_count + message_count`: each message is
/// forwarded `2 * inflection + 1` times, delivered once as a terminal, and
/// counted once by the notifier.
pub proof fn lemma_chaos_total_closed_form(max: u32, mc: usize)
    requires
        max >= 1,
    ensures
        mc * (chaos_steps(0, max, ChaosMonkeyMutation::Increment) + 2) == (max + 1) * 2 * mc + mc,
{
    lemma_chaos_steps_of_injected(max);
    assert(mc * (2 * (max as int) + 1 + 2) == ((max as int) + 1) * 2 * mc + mc)
        by (nonlinear_arith);
}

/// The handles of the mesh forwarders, in order.
fn mesh_handles(m: usize) -> (r: Vec<usize>)
    ensures
        r@.len() == m,
        forall|i: int| 0 <= i < m ==> (#[trigger] r@[i]) == i,
{
    let mut handles: Vec<usize> = Vec::new();
    let mut i: usize = 0;
    while i < m
        invariant
            i <= m,
            handles@.len() == i,
            forall|j: int| 0 <= j < i ==> (#[trigger] handles@[j]) == j,
        decreases m - i,
    {
        handles.push(i);
        i = i + 1;
    }
    handles
}

/// An empty mesh has a zero total.
proof fn lemma_total_received_zero(s: Seq<Forwarder>)
    requires
        forall|k: int| 0 <= k < s.len() ==> (#[trigger] s[k]).received_count == 0,
    ensures
        total_received(s) == 0,
    decreases s.len(),
{
    if s.len() > 0 {
        lemma_total_received_zero(s.drop_last());
    }
}

/// While messages remain, the running total stays strictly under the final
/// total, so no received counter can reach the machine word's limit.
proof fn lemma_mul_bound_step(done: int, full: int, mc: int)
    requires
        0 <= done < mc,
        full >= 0,
    ensures
        done * (full + 2) + (full + 2) <= mc * (full + 2),
        done * (full + 2) >= 0,
{
    vstd::arithmetic::mul::lemma_mul_inequality(done + 1, mc, full + 2);
    assert((done + 1) * (full + 2) == done * (full + 2) + (full + 2)) by (nonlinear_arith);
    vstd::arithmetic::mul::lemma_mul_nonnegative(done, full + 2);
}

} // verus!
