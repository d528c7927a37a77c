//! The executor pool's decision side: the boot-time factory configuration,
//! the round-robin "pick one" selection, and the process-wide runtime
//! defaults. The worker threads and schedulers themselves live in the
//! shell, which sizes and steps them by the rules here.

use vstd::prelude::*;

verus! {

/// The boot-time shape of the executor pool: how many worker threads, and
/// whether each owns its own scheduler or all share one.
#[derive(Debug, Copy, Clone, Eq, PartialEq, Structural)]
pub struct ExecutorFactory {
    /// The number of worker threads.
    pub thread_count: usize,
    /// When true, each worker owns its own scheduler; when false, all
    /// workers share one.
    pub bind_executor_to_thread: bool,
}

impl Default for ExecutorFactory {
    /// Four worker threads, each with its own scheduler.
    fn default() -> (r: Self)
        ensures
            r.thread_count == 4,
            r.bind_executor_to_thread,
    {
        ExecutorFactory { thread_count: 4, bind_executor_to_thread: true }
    }
}

impl ExecutorFactory {
    /// Override for thread_count.
    pub fn thread_count(self, thread_count: usize) -> (r: Self)
        ensures
            r.thread_count == thread_count,
            r.bind_executor_to_thread == self.bind_executor_to_thread,
    {
        let mut this = self;
        this.thread_count = thread_count;
        this
    }

    /// Override for bind_executor_to_thread.
    pub fn bind_executor_to_thread(self, bind_executor_to_thread: bool) -> (r: Self)
        ensures
            r.bind_executor_to_thread == bind_executor_to_thread,
            r.thread_count == self.thread_count,
    {
        let mut this = self;
        this.bind_executor_to_thread = bind_executor_to_thread;
        this
    }

    /// How many schedulers the pool will own: one per thread when bound,
    /// one shared scheduler otherwise.
    pub fn executor_count(&self) -> (r: usize)
        requires
            self.thread_count >= 1,
        ensures
            r == (if self.bind_executor_to_thread {
                self.thread_count as int
            } else {
                1int
            }),
    {
        if self.bind_executor_to_thread {
            self.thread_count
        } else {
            1
        }
    }
}

/// The shape of the forwarder chain benchmark: how many forwarders, their
/// mailbox capacity, and how many messages are pushed through.
#[derive(Debug, Copy, Clone, Eq, PartialEq, Structural)]
pub struct ForwarderFactory {
    /// The number of forwarders in the chain.
    pub forwarder_count: usize,
    /// The capacity of each forwarder's mailbox.
    pub queue_size: usize,
    /// The number of messages pushed through the chain.
    pub message_count: usize,
    /// Whether sends are handed to a spawned task.
    pub spawn_send: bool,
}

impl Default for ForwarderFactory {
    /// A thousand forwarders with ten-slot mailboxes and a thousand
    /// messages.
    fn default() -> (r: Self)
        ensures
            r.forwarder_count == 1000,
            r.queue_size == 10,
            r.message_count == 1000,
            !r.spawn_send,
    {
        ForwarderFactory { forwarder_count: 1000, queue_size: 10, message_count: 1000, spawn_send: false }
    }
}

impl ForwarderFactory {
    /// Override for forwarder_count.
    pub fn forwarder_count(self, forwarder_count: usize) -> (r: Self)
        ensures
            r == (ForwarderFactory { forwarder_count, ..self }),
    {
        let mut this = self;
        this.forwarder_count = forwarder_count;
        this
    }

    /// Override for queue_size.
    pub fn queue_size(self, queue_size: usize) -> (r: Self)
        ensures
            r == (ForwarderFactory { queue_size, ..self }),
    {
        let mut this = self;
        this.queue_size = queue_size;
        this
    }

    /// Override for message_count.
    pub fn message_count(self, message_count: usize) -> (r: Self)
        ensures
            r == (ForwarderFactory { message_count, ..self }),
    {
        let mut this = self;
        this.message_count = message_count;
        this
    }

    /// Override for spawn_send.
    pub fn spawn_send(self, spawn_send: bool) -> (r: Self)
        ensures
            r == (ForwarderFactory { spawn_send, ..self }),
    {
        let mut this = self;
        this.spawn_send = spawn_send;
        this
    }
}

/// The round-robin affinity hint of the executor pool: a monotonically
/// stepped counter taken modulo the pool size, so that consecutive
/// `get_executor` calls walk the schedulers in order, wrapping around.
#[derive(Debug, Copy, Clone, Eq, PartialEq, Structural)]
pub struct ExecutorPool {
    /// The number of schedulers in the pool.
    pub size: usize,
    /// The selection counter; it wraps at the machine word.
    pub seed: usize,
}

impl ExecutorPool {
    /// A pool of `size` schedulers with the counter at zero.
    pub fn new(size: usize) -> (r: Self)
        requires
            size >= 1,
        ensures
            r.size == size,
            r.seed == 0,
    {
        ExecutorPool { size, seed: 0 }
    }

    /// Pick one scheduler: the counter modulo the pool size, stepping the
    /// counter.
    pub fn get_executor(&mut self) -> (idx: usize)
        requires
            old(self).size >= 1,
        ensures
            idx == old(self).seed as int % old(self).size as int,
            idx < old(self).size,
            final(self).size == old(self).size,
            final(self).seed == (if old(self).seed == usize::MAX {
                0int
            } else {
                old(self).seed + 1
            }),
    {
        let idx = self.seed % self.size;
        if self.seed == usize::MAX {
            self.seed = 0;
        } else {
            self.seed = self.seed + 1;
        }
        idx
    }
}

/// The process-wide runtime defaults: the capacity of a default-bounded
/// mailbox and the number of worker threads (zero meaning "use the logical
/// CPU count"). The shell holds one instance for the process; updating a
/// default affects only subsequent uses.
#[derive(Debug, Copy, Clone, Eq, PartialEq, Structural)]
pub struct RuntimeDefaults {
    /// The capacity a default-bounded mailbox is created with.
    pub channel_max: usize,
    /// The number of worker threads; zero means the logical CPU count.
    pub num_threads: usize,
}

impl Default for RuntimeDefaults {
    /// Twenty-slot mailboxes, and as many threads as logical CPUs.
    fn default() -> (r: Self)
        ensures
            r.channel_max == 20,
            r.num_threads == 0,
    {
        RuntimeDefaults { channel_max: 20, num_threads: 0 }
    }
}

impl RuntimeDefaults {
    /// Set the default mailbox capacity, returning the previous value.
    pub fn set_default_channel_max(&mut self, capacity: usize) -> (r: usize)
        ensures
            r == old(self).channel_max,
            final(self).channel_max == capacity,
            final(self).num_threads == old(self).num_threads,
    {
        let res = self.channel_max;
        self.channel_max = capacity;
        res
    }

    /// Get the default mailbox capacity.
    pub fn get_default_channel_max(&self) -> (r: usize)
        ensures
            r == self.channel_max,
    {
        self.channel_max
    }

    /// Set the default number of threads, returning the previous value. If
    /// zero, the pool falls back to the number of CPUs available.
    pub fn set_default_num_threads(&mut self, num_threads: usize) -> (r: usize)
        ensures
            r == old(self).num_threads,
            final(self).num_threads == num_threads,
            final(self).channel_max == old(self).channel_max,
    {
        let res = self.num_threads;
        self.num_threads = num_threads;
        res
    }

    /// Get the default number of threads. If zero, the pool falls back to
    /// the number of CPUs available.
    pub fn get_default_num_threads(&self) -> (r: usize)
        ensures
            r == self.num_threads,
    {
        self.num_threads
    }
}

} // verus!
