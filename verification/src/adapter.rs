//! The machine-facing half of the adapter: the `Machine` trait every actor
//! implements per instruction set, the deferred outbound send buffer handed
//! to `receive`, and the adapter's control word (state, key, task id).
//!
//! The adapter's driver loop itself awaits on a mailbox and so runs in the
//! shell; everything it decides with is here.

use vstd::prelude::*;

verus! {

/// An error surfaced by a machine's `receive` callback.
#[derive(Debug, Copy, Clone, Eq, PartialEq, Structural)]
pub enum MachineError {
    /// A `TestData` sequence number did not continue the expected sequence.
    SequenceError {
        /// The sequence number the receiver expected next.
        expected: usize,
        /// The sequence number that arrived.
        received: usize,
    },
}

/// The run state of a machine's adapter.
#[derive(Debug, Copy, Clone, Eq, PartialEq, Structural)]
pub enum MachineState {
    New,
    Waiting,
    Ready,
    Running,
    SendBlock,
    RecvBlock,
    Dead,
}

impl Default for MachineState {
    /// An adapter begins its life in the `New` state.
    fn default() -> (r: Self)
        ensures
            r == MachineState::New,
    {
        MachineState::New
    }
}

/// The deferred outbound send buffer: `receive` queues `(target, instruction)`
/// pairs here, and the adapter dispatches them, in insertion order, after
/// `receive` returns and before the next mailbox poll.
pub struct MachineSender<I> {
    queue: Vec<(usize, I)>,
}

impl<I> MachineSender<I> {
    /// The queued sends, in insertion order: `(target handle, instruction)`.
    pub closed spec fn queued(&self) -> Seq<(usize, I)> {
        self.queue@
    }

    /// An empty outbound buffer.
    pub fn new() -> (r: Self)
        ensures
            r.queued() =~= Seq::<(usize, I)>::empty(),
    {
        MachineSender { queue: Vec::new() }
    }

    /// Queue an instruction to be sent to the machine behind `channel` once
    /// the current `receive` returns.
    pub fn send(&mut self, channel: usize, cmd: I)
        ensures
            final(self).queued() == old(self).queued().push((channel, cmd)),
    {
        self.queue.push((channel, cmd));
    }

    /// The number of queued sends.
    pub fn len(&self) -> (r: usize)
        ensures
            r == self.queued().len(),
    {
        self.queue.len()
    }

    /// Empty the buffer, handing the queued sends back in insertion order.
    pub fn drain(&mut self) -> (r: Vec<(usize, I)>)
        ensures
            r@ == old(self).queued(),
            final(self).queued() =~= Seq::<(usize, I)>::empty(),
    {
        let mut taken: Vec<(usize, I)> = Vec::new();
        std::mem::swap(&mut taken, &mut self.queue);
        taken
    }

    /// Discard the queued sends.
    pub fn clear(&mut self)
        ensures
            final(self).queued() =~= Seq::<(usize, I)>::empty(),
    {
        self.queue.clear();
    }
}

/// The `MachineImpl` binds an adapter and instruction set together: its
/// sole contract is to attach an adapter type to an instruction-set enum.
pub trait MachineImpl {
    type Adapter;

    type InstructionSet;
}

/// The adapter type attached to the test instruction set.
pub struct MachineAdapterTestMessage;

/// The builder type attached to the test instruction set.
pub struct MachineBuilderTestMessage;

/// A machine model implements `Machine<I>` for each instruction set `I` it
/// supports. `receive` must not block: it queues its outbound sends into the
/// buffer, and the adapter flushes them after it returns.
pub trait Machine<I> {
    /// The receiver states prepared for the given instruction; `receive` may
    /// only be driven when this holds.
    spec fn ready_to_receive(&self, cmd: &I) -> bool;

    /// Handle one instruction, queueing any outbound sends.
    fn receive(&mut self, cmd: I, sender: &mut MachineSender<I>) -> Result<(), MachineError>
        requires
            old(self).ready_to_receive(&cmd),
    ;

    /// Called once, before the first `receive`, with the adapter's id.
    fn connected(&mut self, id: u128);

    /// Called once, after the mailbox has closed and drained.
    fn disconnected(&mut self);
}

/// A trivial machine that accepts and drops every instruction.
pub struct TestMessageMachine {
    /// The adapter id seen by `connected`, zero before that.
    pub machine_id: u128,
}

impl TestMessageMachine {
    /// A machine that has not yet been connected.
    pub fn new() -> (r: Self)
        ensures
            r.machine_id == 0,
    {
        TestMessageMachine { machine_id: 0 }
    }
}

impl Machine<crate::message::TestMessage> for TestMessageMachine {
    open spec fn ready_to_receive(&self, cmd: &crate::message::TestMessage) -> bool {
        true
    }

    fn receive(
        &mut self,
        cmd: crate::message::TestMessage,
        sender: &mut MachineSender<crate::message::TestMessage>,
    ) -> (r: Result<(), MachineError>)
        ensures
            r is Ok,
            *final(self) == *old(self),
            final(sender).queued() == old(sender).queued(),
    {
        Ok(())
    }

    fn connected(&mut self, id: u128)
        ensures
            final(self).machine_id == id,
    {
        self.machine_id = id;
    }

    fn disconnected(&mut self)
        ensures
            *final(self) == *old(self),
    {
    }
}

/// Relies on `uuid::Uuid::new_v4`: a freshly drawn random 128-bit identifier,
/// carried over as its integer value. Nothing is promised of the draw.
#[verifier::external_body]
fn fresh_adapter_id() -> u128 {
    uuid::Uuid::new_v4().as_u128()
}

/// The adapter's control word: one per `(machine, instruction set)` pair. The
/// driver task reads and steps this state; the id is assigned at construction
/// and stable for the adapter's lifetime.
pub struct MachineAdapter {
    id: u128,
    key: usize,
    state: MachineState,
    task_id: usize,
}

impl MachineAdapter {
    /// The adapter's stable 128-bit identity.
    pub closed spec fn id_spec(&self) -> u128 {
        self.id
    }

    /// The adapter's collective key.
    pub closed spec fn key_spec(&self) -> usize {
        self.key
    }

    /// The adapter's run state.
    pub closed spec fn state_spec(&self) -> MachineState {
        self.state
    }

    /// The task id, zero when no task is attached.
    pub closed spec fn task_id_spec(&self) -> usize {
        self.task_id
    }

    /// A fresh adapter control word: state `New`, no key, no task.
    pub fn new() -> (r: Self)
        ensures
            r.key_spec() == 0,
            r.state_spec() == MachineState::New,
            r.task_id_spec() == 0,
    {
        MachineAdapter { id: fresh_adapter_id(), key: 0, state: MachineState::New, task_id: 0 }
    }

    /// The adapter's stable identity, assigned at construction.
    pub fn get_id(&self) -> (r: u128)
        ensures
            r == self.id_spec(),
    {
        self.id
    }

    /// The key under which the adapter is held in the collective.
    pub fn get_key(&self) -> (r: usize)
        ensures
            r == self.key_spec(),
    {
        self.key
    }

    /// Assign the collective key.
    pub fn set_key(&mut self, key: usize)
        ensures
            final(self).key_spec() == key,
            final(self).id_spec() == old(self).id_spec(),
            final(self).state_spec() == old(self).state_spec(),
            final(self).task_id_spec() == old(self).task_id_spec(),
    {
        self.key = key;
    }

    /// The current run state.
    pub fn get_state(&self) -> (r: MachineState)
        ensures
            r == self.state_spec(),
    {
        self.state
    }

    /// True if the adapter has been torn down.
    pub fn is_dead(&self) -> (r: bool)
        ensures
            r == (self.state_spec() == MachineState::Dead),
    {
        self.state == MachineState::Dead
    }

    /// True if the adapter's task is currently running.
    pub fn is_running(&self) -> (r: bool)
        ensures
            r == (self.state_spec() == MachineState::Running),
    {
        self.state == MachineState::Running
    }

    /// True if the adapter is suspended on a full target mailbox.
    pub fn is_send_blocked(&self) -> (r: bool)
        ensures
            r == (self.state_spec() == MachineState::SendBlock),
    {
        self.state == MachineState::SendBlock
    }

    /// Step the state from `current` to `new`; on a mismatch the state is
    /// unchanged and the actual state comes back as the error.
    pub fn compare_and_exchange_state(&mut self, current: MachineState, new: MachineState) -> (r:
        Result<MachineState, MachineState>)
        ensures
            final(self).id_spec() == old(self).id_spec(),
            final(self).key_spec() == old(self).key_spec(),
            final(self).task_id_spec() == old(self).task_id_spec(),
            old(self).state_spec() == current ==> final(self).state_spec() == new && r
                == Result::<MachineState, MachineState>::Ok(current),
            old(self).state_spec() != current ==> final(self).state_spec() == old(self).state_spec()
                && r == Result::<MachineState, MachineState>::Err(old(self).state_spec()),
    {
        if self.state == current {
            self.state = new;
            Ok(current)
        } else {
            Err(self.state)
        }
    }

    /// Detach the task id.
    pub fn clear_task_id(&mut self)
        ensures
            final(self).task_id_spec() == 0,
            final(self).id_spec() == old(self).id_spec(),
            final(self).key_spec() == old(self).key_spec(),
            final(self).state_spec() == old(self).state_spec(),
    {
        self.task_id = 0;
    }

    /// The attached task id, zero when none.
    pub fn get_task_id(&self) -> (r: usize)
        ensures
            r == self.task_id_spec(),
    {
        self.task_id
    }

    /// Attach a task id.
    pub fn set_task_id(&mut self, id: usize)
        ensures
            final(self).task_id_spec() == id,
            final(self).id_spec() == old(self).id_spec(),
            final(self).key_spec() == old(self).key_spec(),
            final(self).state_spec() == old(self).state_spec(),
    {
        self.task_id = id;
    }

    /// Overwrite the run state.
    pub fn set_state(&mut self, new: MachineState)
        ensures
            final(self).state_spec() == new,
            final(self).id_spec() == old(self).id_spec(),
            final(self).key_spec() == old(self).key_spec(),
            final(self).task_id_spec() == old(self).task_id_spec(),
    {
        self.state = new;
    }

    /// A copy of the run state, as shared with other adapters.
    pub fn clone_state(&self) -> (r: MachineState)
        ensures
            r == self.state_spec(),
    {
        self.state
    }
}

} // verus!
