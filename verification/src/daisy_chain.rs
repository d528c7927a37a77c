//! The daisy-chain harness: a linear chain of forwarders in which every
//! message received by one machine is forwarded to the next. The driver
//! wires the chain with configuration instructions, then drives the injected
//! messages through it stage by stage, each mailbox delivered in FIFO order
//! and each receive's outbound batch flushed before its next receive.

use vstd::arithmetic::mul::lemma_mul_inequality;
use vstd::arithmetic::power::{lemma_pow_increases, pow};
use vstd::prelude::*;

use crate::adapter::MachineSender;
use crate::forwarder::{
    config_unchanged, notify_emission, testdata_emission, Forwarder,
};
use crate::message::TestMessage;

verus! {

/// The `TestDriver` trait is implemented by tests and benchmarks for driving
/// throughput scenarios.
pub trait TestDriver: Sized {
    /// Set up the test, initializing and configuring machines.
    fn setup(&mut self);

    /// Tear down the test, cleaning everything up along the way.
    fn teardown(driver: Self);

    /// Run a single iteration of a test.
    fn run(&mut self);
}

/// `base` raised to `exp`, whenever the power fits the machine word.
pub fn pow_usize(base: usize, exp: usize) -> (r: usize)
    requires
        pow(base as int, exp as nat) <= usize::MAX,
    ensures
        r == pow(base as int, exp as nat),
{
    let mut acc: usize = 1;
    let mut i: usize = 0;
    proof {
        vstd::arithmetic::power::lemma_pow0(base as int);
    }
    while i < exp
        invariant
            i <= exp,
            acc == pow(base as int, i as nat),
            pow(base as int, exp as nat) <= usize::MAX,
        decreases exp - i,
    {
        proof {
            lemma_pow_unfold_step(base as int, i as nat);
            if base >= 1 {
                lemma_pow_increases(base as nat, (i + 1) as nat, exp as nat);
            } else {
                lemma_pow_zero_base((i + 1) as nat);
            }
        }
        acc = acc * base;
        i = i + 1;
    }
    acc
}

proof fn lemma_pow_unfold_step(b: int, e: nat)
    ensures
        pow(b, e + 1) == pow(b, e) * b,
{
    vstd::arithmetic::power::lemma_pow_adds(b, e, 1nat);
    vstd::arithmetic::power::lemma_pow1(b);
}

proof fn lemma_pow_zero_base(e: nat)
    requires
        e >= 1,
    ensures
        pow(0, e) == 0,
{
    vstd::arithmetic::power::lemma0_pow(e);
}

/// Deliver the whole inbox — the consecutively numbered `TestData` sequence
/// of one chain stage — to one forwarder, in FIFO order, flushing each
/// receive's outbound batch before the next receive. Returns the forwarded
/// messages, in emission order, and how many notifications were sent.
fn run_chain_stage(fwd: &mut Forwarder, inbox: Vec<TestMessage>) -> (r: (Vec<TestMessage>, usize))
    requires
        forall|i: int|
            0 <= i < inbox@.len() ==> inbox@[i] == TestMessage::TestData(i as usize),
        old(fwd).next_seq == 0,
        old(fwd).received_count == 0,
        old(fwd).send_count == 0,
        old(fwd).senders@.len() * old(fwd).forwarding_multiplier <= usize::MAX,
        inbox@.len() * (old(fwd).senders@.len() * old(fwd).forwarding_multiplier) <= usize::MAX,
    ensures
        ({
            let n = inbox@.len() as int;
            let w = old(fwd).senders@.len() * old(fwd).forwarding_multiplier;
            &&& config_unchanged(*old(fwd), *final(fwd))
            &&& final(fwd).id == old(fwd).id
            &&& final(fwd).received_count == n
            &&& final(fwd).next_seq == n
            &&& final(fwd).send_count == n * w
            &&& r.0@.len() == n * w
            &&& forall|j: int| 0 <= j < n * w ==> r.0@[j] == TestMessage::TestData(j as usize)
            &&& r.1 == ({
                if old(fwd).notify_sender is Some && 1 <= old(fwd).notify_count <= n {
                    1int
                } else {
                    0int
                }
            })
        }),
{
    let ghost n = inbox@.len() as int;
    let ghost w = (old(fwd).senders@.len() * old(fwd).forwarding_multiplier) as int;
    let width: usize = fwd.senders.len() * fwd.forwarding_multiplier;
    let mut remaining = inbox;
    let total_count = remaining.len();
    proof {
        assert(n == total_count);
    }
    let mut out: Vec<TestMessage> = Vec::new();
    let mut notes: usize = 0;
    let mut i: usize = 0;
    while remaining.len() > 0
        invariant
            n <= usize::MAX,
            i + remaining@.len() == n,
            forall|p: int|
                0 <= p < remaining@.len() ==> remaining@[p] == TestMessage::TestData(
                    (i + p) as usize,
                ),
            w == old(fwd).senders@.len() * old(fwd).forwarding_multiplier,
            width == w,
            n * w <= usize::MAX,
            i * w >= 0,
            config_unchanged(*old(fwd), *fwd),
            fwd.id == old(fwd).id,
            fwd.received_count == i,
            fwd.next_seq == i,
            fwd.send_count == i * w,
            out@.len() == i * w,
            forall|j: int| 0 <= j < i * w ==> out@[j] == TestMessage::TestData(j as usize),
            notes == ({
                if old(fwd).notify_sender is Some && 1 <= old(fwd).notify_count <= i {
                    1int
                } else {
                    0int
                }
            }),
        decreases remaining@.len(),
    {
        proof {
            lemma_mul_inequality(i as int + 1, n, w);
            assert((i + 1) * w == i * w + w) by (nonlinear_arith);
            vstd::arithmetic::mul::lemma_mul_nonnegative(i as int + 1, w);
        }
        let msg = remaining.remove(0);
        let mut buf: MachineSender<TestMessage> = MachineSender::new();
        let res = fwd.receive(msg, &mut buf);
        proof {
            assert(res is Ok);
        }
        let ghost emitted = testdata_emission(
            old(fwd).senders@,
            old(fwd).forwarding_multiplier as nat,
            i * w,
        );
        let ghost note = notify_emission(
            (i + 1) as usize,
            old(fwd).notify_count,
            old(fwd).notify_sender,
        );
        let mut pairs = buf.drain();
        let ghost all_pairs = pairs@;
        let pairs_count = pairs.len();
        proof {
            assert(all_pairs =~= emitted + note);
            assert(emitted.len() == w);
            assert(pairs@ =~= all_pairs.subrange(0, all_pairs.len() as int));
        }
        let mut p: usize = 0;
        while pairs.len() > 0
            invariant
                0 <= i < n,
                n <= usize::MAX,
                all_pairs.len() == pairs_count,
                i * w >= 0,
                p + pairs@.len() == all_pairs.len(),
                pairs@ == all_pairs.subrange(p as int, all_pairs.len() as int),
                all_pairs == emitted + note,
                emitted == testdata_emission(
                    old(fwd).senders@,
                    old(fwd).forwarding_multiplier as nat,
                    i * w,
                ),
                note == notify_emission(
                    (i + 1) as usize,
                    old(fwd).notify_count,
                    old(fwd).notify_sender,
                ),
                emitted.len() == w,
                width == w,
                i * w + w <= n * w,
                n * w <= usize::MAX,
                out@.len() == i * w + (if p <= w {
                    p as int
                } else {
                    w
                }),
                forall|j: int|
                    0 <= j < out@.len() ==> out@[j] == TestMessage::TestData(j as usize),
                notes == ({
                    if old(fwd).notify_sender is Some && 1 <= old(fwd).notify_count <= i {
                        1int
                    } else {
                        0int
                    }
                }) + (if p as int > w {
                    1int
                } else {
                    0int
                }),
            decreases pairs@.len(),
        {
            let pair = pairs.remove(0);
            proof {
                assert(pair == all_pairs[p as int]);
                assert(pairs@ =~= all_pairs.subrange(p as int + 1, all_pairs.len() as int));
            }
            if p < width {
                proof {
                    assert(all_pairs[p as int] == emitted[p as int]);
                    assert(emitted[p as int].1 == TestMessage::TestData((i * w + p) as usize));
                }
                out.push(pair.1);
            } else {
                proof {
                    assert(all_pairs[p as int] == note[p - emitted.len()]);
                    assert(note.len() == 1);
                    assert(old(fwd).notify_sender is Some && i + 1 == old(fwd).notify_count);
                }
                notes = notes + 1;
            }
            p = p + 1;
        }
        proof {
            assert(note.len() <= 1);
            if old(fwd).notify_sender is Some && 1 <= old(fwd).notify_count <= i + 1 {
                if old(fwd).notify_count == i + 1 {
                    assert(note.len() == 1);
                } else {
                    assert(note.len() == 0);
                }
            }
        }
        i = i + 1;
    }
    (out, notes)
}

/// Law: per-mailbox serial receive. A stage delivers its mailbox one
/// receive at a time, and `run_chain_stage` flushes the whole outbound
/// batch of each receive — the `forwarding_multiplier`-wide emission — into
/// the next mailbox before the next receive begins. In the flushed stream,
/// where receive `k` occupies positions `k * w .. (k + 1) * w`, every send
/// of an earlier receive therefore precedes every send of a later one.
pub proof fn lemma_outbound_batches_in_order(k1: int, k2: int, j1: int, j2: int, w: int)
    requires
        0 <= k1 < k2,
        0 <= j1 < w,
        0 <= j2 < w,
    ensures
        k1 * w + j1 < k2 * w + j2,
{
    lemma_mul_inequality(k1 + 1, k2, w);
    assert((k1 + 1) * w == k1 * w + w) by (nonlinear_arith);
}

/// `DaisyChain` sets up a linear network of machines in which a message
/// received by a machine is forwarded to the next; every machine in the
/// network is visited by every injected message, multiplied stage by stage
/// by the forwarding multiplier.
pub struct DaisyChainDriver {
    /// The number of machines in the chain.
    pub machine_count: usize,
    /// The number of messages injected into the head of the chain.
    pub message_count: usize,
    /// Whether the real harness uses bounded mailboxes.
    pub bound_queue: bool,
    /// How many copies each machine forwards of each accepted message.
    pub forwarding_multiplier: usize,
    /// The sender handles of the machines, in chain order.
    pub senders: Vec<usize>,
    /// The machines themselves, in chain order.
    pub forwarders: Vec<Forwarder>,
    /// The handle of the head of the chain.
    pub first_sender: Option<usize>,
    /// How many messages the tail machine expects.
    pub expected_message_count: usize,
    /// How many completion notifications the tail machine has emitted.
    pub completions: usize,
}

impl Default for DaisyChainDriver {
    /// An unwired driver with the default chain shape.
    fn default() -> (r: Self)
        ensures
            r.machine_count == 4000,
            r.message_count == 200,
            r.bound_queue,
            r.forwarding_multiplier == 1,
            r.forwarders@.len() == 0,
            r.completions == 0,
    {
        DaisyChainDriver {
            machine_count: 4000,
            message_count: 200,
            bound_queue: true,
            forwarding_multiplier: 1,
            senders: Vec::new(),
            forwarders: Vec::new(),
            first_sender: None,
            expected_message_count: 0,
            completions: 0,
        }
    }
}

impl DaisyChainDriver {
    /// The driver holds a freshly wired chain: machine `k` forwards to
    /// machine `k + 1` with the configured multiplier, the tail machine
    /// notifies the completion handle once the expected count is reached,
    /// and every counter is zero.
    pub open spec fn chain_wired(&self) -> bool {
        let m = self.machine_count as int;
        let f = self.forwarding_multiplier;
        &&& m >= 1
        &&& self.forwarders@.len() == m
        &&& self.senders@.len() == m
        &&& (forall|k: int| 0 <= k < m ==> (#[trigger] self.senders@[k]) == k)
        &&& self.first_sender == Option::<usize>::Some(0)
        &&& self.expected_message_count == self.message_count * pow(f as int, (m - 1) as nat)
        &&& self.completions == 0
        &&& forall|k: int|
            0 <= k < m ==> {
                let fw = (#[trigger] self.forwarders@[k]);
                &&& fw.received_count == 0
                &&& fw.send_count == 0
                &&& fw.next_seq == 0
                &&& fw.id == k + 1
                &&& if k < m - 1 {
                    &&& fw.senders@ =~= seq![(k + 1) as usize]
                    &&& fw.forwarding_multiplier == f
                    &&& fw.notify_sender is None
                } else {
                    &&& fw.senders@.len() == 0
                    &&& fw.notify_sender == Option::Some(m as usize)
                    &&& fw.notify_count == self.expected_message_count
                }
            }
    }

    /// Create the chain and wire it: each machine learns the next machine's
    /// sender and the forwarding multiplier, and the tail machine is told to
    /// notify the completion handle after the expected number of messages.
    pub fn setup(&mut self)
        requires
            old(self).machine_count >= 1,
            pow(
                old(self).forwarding_multiplier as int,
                (old(self).machine_count - 1) as nat,
            ) <= usize::MAX,
            old(self).message_count * pow(
                old(self).forwarding_multiplier as int,
                (old(self).machine_count - 1) as nat,
            ) <= usize::MAX,
        ensures
            final(self).chain_wired(),
            final(self).machine_count == old(self).machine_count,
            final(self).message_count == old(self).message_count,
            final(self).forwarding_multiplier == old(self).forwarding_multiplier,
    {
        let m = self.machine_count;
        let f = self.forwarding_multiplier;
        let mut forwarders: Vec<Forwarder> = Vec::new();
        let mut senders: Vec<usize> = Vec::new();
        let mut k: usize = 0;
        while k < m
            invariant
                k <= m,
                forwarders@.len() == k,
                senders@.len() == k,
                forall|j: int|
                    0 <= j < k ==> (#[trigger] forwarders@[j]).is_fresh((j + 1) as usize),
                forall|j: int| 0 <= j < k ==> (#[trigger] senders@[j]) == j,
            decreases m - k,
        {
            forwarders.push(Forwarder::new(k + 1));
            senders.push(k);
            k = k + 1;
        }
        // Wire machine k to machine k + 1, exactly as the harness would by
        // sending configuration instructions into each mailbox in turn.
        let mut scratch: MachineSender<TestMessage> = MachineSender::new();
        k = 0;
        while k + 1 < m
            invariant
                k < m,
                forwarders@.len() == m,
                forall|j: int|
                    k <= j < m ==> (#[trigger] forwarders@[j]).is_fresh((j + 1) as usize),
                forall|j: int|
                    0 <= j < k ==> {
                        let fw = (#[trigger] forwarders@[j]);
                        &&& fw.received_count == 0
                        &&& fw.send_count == 0
                        &&& fw.next_seq == 0
                        &&& fw.id == j + 1
                        &&& fw.senders@ =~= seq![(j + 1) as usize]
                        &&& fw.forwarding_multiplier == f
                        &&& fw.notify_sender is None
                    },
            decreases m - k,
        {
            let fw = &mut forwarders[k];
            let r1 = fw.receive(TestMessage::AddSender(k + 1), &mut scratch);
            let r2 = fw.receive(TestMessage::ForwardingMultiplier(f), &mut scratch);
            proof {
                assert(r1 is Ok && r2 is Ok);
            }
            k = k + 1;
        }
        let expected = self.message_count * pow_usize(f, m - 1);
        let tail = &mut forwarders[m - 1];
        let r3 = tail.receive(TestMessage::Notify(m, expected), &mut scratch);
        proof {
            assert(r3 is Ok);
        }
        self.forwarders = forwarders;
        self.senders = senders;
        self.first_sender = Some(0);
        self.expected_message_count = expected;
        self.completions = 0;
    }

    /// Tear down the chain.
    pub fn teardown(_driver: Self) {
    }

    /// Drive one run: inject `message_count` messages, numbered from zero,
    /// into the head of the chain, and deliver every mailbox until the chain
    /// drains.
    ///
    /// Law: counter conservation. After the run, machine `k` (from zero) has
    /// received exactly `message_count * multiplier^k` messages, and the
    /// completion notification fired exactly once (provided any message
    /// reaches the tail).
    pub fn run(&mut self)
        requires
            old(self).chain_wired(),
            old(self).forwarding_multiplier >= 1,
        ensures
            final(self).machine_count == old(self).machine_count,
            final(self).forwarders@.len() == old(self).machine_count,
            forall|k: int|
                0 <= k < old(self).machine_count ==> (#[trigger] final(self).forwarders@[k]).received_count
                    == old(self).message_count * pow(old(self).forwarding_multiplier as int, k as nat),
            final(self).completions == ({
                if old(self).expected_message_count > 0 {
                    1int
                } else {
                    0int
                }
            }),
    {
        let m = self.machine_count;
        let f = self.forwarding_multiplier;
        let mc = self.message_count;
        let ghost expected = self.expected_message_count as int;
        let mut inbox: Vec<TestMessage> = Vec::new();
        let mut i: usize = 0;
        while i < mc
            invariant
                i <= mc,
                inbox@.len() == i,
                forall|p: int| 0 <= p < i ==> inbox@[p] == TestMessage::TestData(p as usize),
            decreases mc - i,
        {
            inbox.push(TestMessage::TestData(i));
            i = i + 1;
        }
        let mut done: Vec<Forwarder> = Vec::new();
        let mut notes: usize = 0;
        let mut k: usize = 0;
        proof {
            vstd::arithmetic::power::lemma_pow0(f as int);
            lemma_stage_count_bounded(mc as int, f as int, 0, (m - 1) as nat);
        }
        while k < m
            invariant
                old(self).chain_wired(),
                m == old(self).machine_count,
                f == old(self).forwarding_multiplier,
                f >= 1,
                mc == old(self).message_count,
                expected == old(self).expected_message_count,
                expected == mc * pow(f as int, (m - 1) as nat),
                self.machine_count == m,
                self.message_count == mc,
                self.forwarding_multiplier == f,
                self.expected_message_count == old(self).expected_message_count,
                k <= m,
                done@.len() == k,
                self.forwarders@ =~= old(self).forwarders@.subrange(k as int, m as int),
                forall|j: int|
                    0 <= j < k ==> (#[trigger] done@[j]).received_count == mc * pow(f as int, j as nat),
                inbox@.len() == mc * pow(f as int, k as nat) || k == m,
                forall|p: int|
                    0 <= p < inbox@.len() ==> inbox@[p] == TestMessage::TestData(p as usize),
                notes == (if k == m && expected > 0 {
                    1int
                } else {
                    0int
                }),
            decreases m - k,
        {
            proof {
                lemma_stage_count_bounded(mc as int, f as int, k as nat, (m - 1) as nat);
                if k < m - 1 {
                    lemma_stage_count_bounded(mc as int, f as int, (k + 1) as nat, (m - 1) as nat);
                    lemma_pow_unfold_step(f as int, k as nat);
                    assert(mc * (pow(f as int, k as nat) * f) == mc * pow(f as int, k as nat) * f)
                        by (nonlinear_arith);
                }
            }
            let mut fwd = self.forwarders.remove(0);
            let ghost pre = fwd;
            let ghost n_k = inbox@.len() as int;
            proof {
                assert(self.forwarders@ =~= old(self).forwarders@.subrange(
                    k as int + 1,
                    m as int,
                ));
                assert(pre == old(self).forwarders@[k as int]);
                if k < m - 1 {
                    assert((k as int) < old(self).machine_count - 1);
                    assert(pre.senders@ =~= seq![(k as int + 1) as usize]);
                    assert(pre.senders@.len() == 1);
                    assert(pre.forwarding_multiplier == f);
                    assert(pre.senders@.len() * pre.forwarding_multiplier == f);
                    assert(n_k * f == mc * pow(f as int, (k + 1) as nat));
                } else {
                    assert(pre.senders@.len() * pre.forwarding_multiplier == 0);
                    assert(n_k * 0 == 0) by (nonlinear_arith);
                }
            }
            let (next_inbox, stage_notes) = run_chain_stage(&mut fwd, inbox);
            proof {
                if k < m - 1 {
                    assert(stage_notes == 0);
                } else {
                    assert(n_k == expected);
                    if expected > 0 {
                        assert(stage_notes == 1);
                    } else {
                        assert(stage_notes == 0);
                    }
                }
            }
            inbox = next_inbox;
            notes = notes + stage_notes;
            done.push(fwd);
            k = k + 1;
        }
        self.forwarders = done;
        self.completions = notes;
        proof {
            assert(final(self).forwarders@.len() == m);
        }
    }
}

/// Each stage's message count is bounded by the final stage's: with a
/// multiplier of at least one the per-stage counts never shrink.
proof fn lemma_stage_count_bounded(mc: int, f: int, k: nat, last: nat)
    requires
        mc >= 0,
        f >= 1,
        k <= last,
        mc * pow(f, last) <= usize::MAX,
    ensures
        mc * pow(f, k) <= mc * pow(f, last),
        mc * pow(f, k) >= 0,
{
    lemma_pow_increases(f as nat, k, last);
    vstd::arithmetic::power::lemma_pow_positive(f, k);
    vstd::arithmetic::power::lemma_pow_positive(f, last);
    vstd::arithmetic::mul::lemma_mul_inequality(pow(f, k), pow(f, last), mc);
    vstd::arithmetic::mul::lemma_mul_is_commutative(pow(f, k), mc);
    vstd::arithmetic::mul::lemma_mul_is_commutative(pow(f, last), mc);
    vstd::arithmetic::mul::lemma_mul_nonnegative(mc, pow(f, k));
}

} // verus!
