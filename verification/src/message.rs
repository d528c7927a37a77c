//! The test instruction set: a tagged sum of configuration and action
//! instructions understood by the `Forwarder` actor, including the
//! self-terminating `ChaosMonkey` message.
//!
//! Sender endpoints are identified by plain `usize` handles; the shell that
//! owns the real channels maps a handle to its channel when it performs a
//! send.

use vstd::prelude::*;

verus! {

/// A handle identifying one sender endpoint of a machine's mailbox.
pub type TestMessageSender = usize;

/// The direction in which a `ChaosMonkey` counter is currently mutating.
#[derive(Debug, Copy, Clone, Eq, PartialEq, Structural)]
pub enum ChaosMonkeyMutation {
    Increment,
    Decrement,
}

/// An example of passing a structure through an instruction set.
#[derive(Debug, Copy, Clone, Eq, PartialEq, Structural)]
pub struct TestStruct {
    pub from_id: usize,
    pub received_by: usize,
}

impl Default for TestStruct {
    fn default() -> (r: Self)
        ensures
            r.from_id == 0 && r.received_by == 0,
    {
        TestStruct { from_id: 0, received_by: 0 }
    }
}

/// The instruction set driven through forwarders by the test harness.
#[derive(Debug, Clone)]
pub enum TestMessage {
    /// A unit-like instruction with no parameters.
    Test,
    /// A single `usize` parameter; for forwarders, a sequence number.
    TestData(usize),
    /// An example of passing a structure.
    TestStruct(TestStruct),
    /// Passes a sender and a structure to be sent back to that sender.
    TestCallback(TestMessageSender, TestStruct),
    /// Push a sender onto the receiver's list of senders.
    AddSender(TestMessageSender),
    /// Push several senders onto the receiver's list of senders.
    AddSenders(Vec<TestMessageSender>),
    /// Clear the receiver's list of senders.
    RemoveAllSenders,
    /// Set up a notification: a `TestData` carrying the number of received
    /// messages is sent to the sender once the count is reached.
    Notify(TestMessageSender, usize),
    /// Set the receiver's forwarding multiplier.
    ForwardingMultiplier(usize),
    /// A self-terminating random-walk message.
    ChaosMonkey {
        /// A counter which is either incremented or decremented.
        counter: u32,
        /// The maximum value of the counter.
        max: u32,
        /// The type of mutation applied to the counter.
        mutation: ChaosMonkeyMutation,
    },
}

/// What a single `advance` of a `ChaosMonkey` body yields: increment the
/// counter until it reaches `max`, flip the mutation there, then decrement
/// it; `counter == 0` with `Decrement` is terminal.
pub open spec fn advance_chaos_monkey_spec(
    counter: u32,
    max: u32,
    mutation: ChaosMonkeyMutation,
) -> TestMessage {
    if counter == 0 {
        if mutation is Increment {
            TestMessage::ChaosMonkey { counter: 1u32, max, mutation }
        } else {
            TestMessage::ChaosMonkey { counter, max, mutation }
        }
    } else if counter >= max {
        if mutation is Increment {
            TestMessage::ChaosMonkey { counter, max, mutation: ChaosMonkeyMutation::Decrement }
        } else {
            TestMessage::ChaosMonkey { counter: (counter - 1) as u32, max, mutation }
        }
    } else {
        if mutation is Increment {
            TestMessage::ChaosMonkey { counter: (counter + 1) as u32, max, mutation }
        } else {
            TestMessage::ChaosMonkey { counter: (counter - 1) as u32, max, mutation }
        }
    }
}

/// The number of mutating `advance` steps a `ChaosMonkey` body takes before
/// it becomes terminal: the measure that proves termination of a chaos run.
pub open spec fn chaos_steps(counter: u32, max: u32, mutation: ChaosMonkeyMutation) -> int {
    if mutation is Decrement {
        counter as int
    } else if counter == 0 && max == 0 {
        3
    } else if counter == 0 {
        2 * (max as int) + 1
    } else if counter >= max {
        counter as int + 1
    } else {
        2 * (max as int) - counter as int + 1
    }
}

impl crate::adapter::MachineImpl for TestMessage {
    type Adapter = crate::adapter::MachineBuilderTestMessage;

    type InstructionSet = TestMessage;
}

impl TestMessage {
    /// What `advance` returns: `ChaosMonkey` bodies mutate, every other
    /// message is returned unchanged.
    pub open spec fn advance_spec(self) -> TestMessage {
        match self {
            TestMessage::ChaosMonkey { counter, max, mutation } => advance_chaos_monkey_spec(
                counter,
                max,
                mutation,
            ),
            _ => self,
        }
    }

    /// True if advancing will mutate the message: a `ChaosMonkey` body that
    /// has not yet decremented back to zero.
    pub open spec fn can_advance_spec(self) -> bool {
        match self {
            TestMessage::ChaosMonkey { counter, mutation, .. } => counter != 0 || mutation
                is Increment,
            _ => false,
        }
    }

    /// Advance the message: a `ChaosMonkey` counter is incremented until it
    /// reaches its maximum value, then decremented; once it reaches 0, no
    /// further advancement is performed. Every other message is unchanged.
    pub fn advance(self) -> (r: Self)
        ensures
            r == self.advance_spec(),
    {
        match self {
            TestMessage::ChaosMonkey { counter, max, mutation } => Self::advance_chaos_monkey(
                counter,
                max,
                mutation,
            ),
            _ => self,
        }
    }

    /// Return true if advancing will mutate, false if advance has no effect.
    pub fn can_advance(&self) -> (r: bool)
        ensures
            r == self.can_advance_spec(),
    {
        match self {
            TestMessage::ChaosMonkey { counter, mutation, .. } => *counter != 0 || *mutation
                != ChaosMonkeyMutation::Decrement,
            _ => false,
        }
    }

    fn advance_chaos_monkey(counter: u32, max: u32, mutation: ChaosMonkeyMutation) -> (r:
        TestMessage)
        ensures
            r == advance_chaos_monkey_spec(counter, max, mutation),
    {
        if counter == 0 {
            match mutation {
                ChaosMonkeyMutation::Increment => TestMessage::ChaosMonkey {
                    counter: counter + 1,
                    max,
                    mutation,
                },
                ChaosMonkeyMutation::Decrement => TestMessage::ChaosMonkey { counter, max, mutation },
            }
        } else if counter >= max {
            match mutation {
                ChaosMonkeyMutation::Increment => TestMessage::ChaosMonkey {
                    counter,
                    max,
                    mutation: ChaosMonkeyMutation::Decrement,
                },
                ChaosMonkeyMutation::Decrement => TestMessage::ChaosMonkey {
                    counter: counter - 1,
                    max,
                    mutation,
                },
            }
        } else {
            match mutation {
                ChaosMonkeyMutation::Increment => TestMessage::ChaosMonkey {
                    counter: counter + 1,
                    max,
                    mutation,
                },
                ChaosMonkeyMutation::Decrement => TestMessage::ChaosMonkey {
                    counter: counter - 1,
                    max,
                    mutation,
                },
            }
        }
    }
}

/// Law: every `ChaosMonkey` message terminates. Its step measure is
/// non-negative, it is zero exactly when the message can no longer advance,
/// each mutating advance decreases it by exactly one, and a terminal message
/// is a fixed point of `advance`. Hence an injected `ChaosMonkey { 0, max,
/// Increment }` is forwarded exactly `chaos_steps(0, max, Increment)` times
/// before its terminal notification.
pub proof fn lemma_chaos_advance_terminates(counter: u32, max: u32, mutation: ChaosMonkeyMutation)
    ensures
        chaos_steps(counter, max, mutation) >= 0,
        (chaos_steps(counter, max, mutation) == 0) == !(TestMessage::ChaosMonkey {
            counter,
            max,
            mutation,
        }).can_advance_spec(),
        (TestMessage::ChaosMonkey { counter, max, mutation }).can_advance_spec()
            ==> advance_measure(advance_chaos_monkey_spec(counter, max, mutation)) == chaos_steps(
            counter,
            max,
            mutation,
        ) - 1,
        !(TestMessage::ChaosMonkey { counter, max, mutation }).can_advance_spec()
            ==> advance_chaos_monkey_spec(counter, max, mutation) == (TestMessage::ChaosMonkey {
            counter,
            max,
            mutation,
        }),
{
}

/// The step measure of a message: the chaos measure of a `ChaosMonkey`
/// body, zero for every other message (which `advance` leaves unchanged).
pub open spec fn advance_measure(m: TestMessage) -> int {
    match m {
        TestMessage::ChaosMonkey { counter, max, mutation } => chaos_steps(counter, max, mutation),
        _ => 0,
    }
}

/// Law: the number of times a just-injected chaos message is forwarded is
/// `2 * max + 1` whenever the inflection value is positive.
pub proof fn lemma_chaos_steps_of_injected(max: u32)
    requires
        max >= 1,
    ensures
        chaos_steps(0, max, ChaosMonkeyMutation::Increment) == 2 * max + 1,
{
}

} // verus!
