//! The network core: the `NetCmd` command protocol, the controller that
//! owns listeners and connections, and the connection table with its
//! generation-stable integer handles.
//!
//! The controller here is the decision half: given one command and the
//! current tables, it updates them and says which actions — spawn a
//! listener, attach a reader, cancel, shut down, write — the shell must
//! perform. The sockets, tasks and channel waiting live in the shell.

use vstd::prelude::*;

use crate::service::ServiceState;

verus! {

/// A `usize` handle into the connection table. Keys are reused only after
/// their entry has been evicted.
pub type NetConnId = usize;

/// A handle identifying one sender endpoint of a `NetCmd` mailbox.
pub type NetSender = usize;

/// The command/event protocol of the network core.
#[derive(Debug, Clone)]
pub enum NetCmd {
    /// Bind a TCP listener at the address; `NewConn` events go to the sender.
    BindTcpListener(String, NetSender),
    /// Reserved; UDP is not required yet.
    BindUdpListener(String, NetSender),
    /// Attach a per-connection reader forwarding `RecvBytes` to the sender.
    BindConn(NetConnId, NetSender),
    /// Out: a connection was accepted, with local and remote addresses.
    NewConn(NetConnId, String, String),
    /// Out: a chunk read from a connection.
    RecvBytes(NetConnId, Vec<u8>),
    /// Write all bytes to the connection, resuming on partial writes.
    SendBytes(NetConnId, Vec<u8>),
    /// Reserved; UDP is not required yet.
    SendPkt(NetConnId, String, Vec<u8>),
    /// Cancel the reader, shut the socket down, free the table entry.
    CloseConn(NetConnId),
    /// Terminate the controller.
    Stop,
}

/// What the shell must do after the controller has handled a command.
#[derive(Debug, Clone)]
pub enum NetAction {
    /// Spawn the accept loop for the listener registered under the key.
    SpawnListener(String, usize),
    /// Spawn the read loop of the connection, forwarding to the sender.
    SpawnReader(NetConnId, NetSender),
    /// Cancel the connection's reader task.
    CancelReader(NetConnId),
    /// Shut the connection's socket down.
    ShutdownConn(NetConnId),
    /// Write the bytes to the connection's socket, whole.
    WriteConn(NetConnId, Vec<u8>),
}

/// What a connection reader does with one read outcome.
#[derive(Debug, Copy, Clone, Eq, PartialEq, Structural)]
pub enum ReaderDecision {
    /// End of stream or a read failure: emit `CloseConn` to both the
    /// application and the owning listener, then exit the read loop.
    CloseBoth,
    /// Bytes were read: deliver the filled prefix as a `RecvBytes` chunk.
    Deliver(usize),
}

/// Decide one reader step: a failed read, or an end-of-stream read of zero
/// bytes, closes the connection both ways; any other read delivers exactly
/// the number of bytes it filled.
pub fn reader_decision(outcome: Option<usize>) -> (r: ReaderDecision)
    ensures
        r == (match outcome {
            Option::Some(count) => if count == 0 {
                ReaderDecision::CloseBoth
            } else {
                ReaderDecision::Deliver(count)
            },
            Option::None => ReaderDecision::CloseBoth,
        }),
{
    match outcome {
        Some(count) => if count == 0 {
            ReaderDecision::CloseBoth
        } else {
            ReaderDecision::Deliver(count)
        },
        None => ReaderDecision::CloseBoth,
    }
}

/// The chunk a reader delivers: only the prefix of its buffer that the read
/// filled.
pub fn read_chunk(buf: Vec<u8>, count: usize) -> (r: Vec<u8>)
    requires
        count <= buf@.len(),
    ensures
        r@ == buf@.subrange(0, count as int),
{
    let mut chunk = buf;
    chunk.truncate(count);
    chunk
}

/// What remains to send after a partial write accepted `written` bytes: the
/// unsent suffix of the buffer.
pub fn unsent_suffix(bytes: Vec<u8>, written: usize) -> (r: Vec<u8>)
    requires
        written <= bytes@.len(),
    ensures
        r@ == bytes@.subrange(written as int, bytes@.len() as int),
{
    let mut head = bytes;
    let tail = head.split_off(written);
    tail
}

/// A bound listener: its address and its key in the server table.
#[derive(Debug, Clone)]
pub struct Server {
    /// Whether the listener has been torn down.
    pub is_dead: bool,
    /// The address the listener is bound to.
    pub bind_addr: String,
    /// The key of this entry in the server table.
    pub key: usize,
}

/// A live connection: who owns it and whether a reader is attached. The
/// socket and the reader task themselves live in the shell, keyed by the
/// connection id.
#[derive(Debug, Copy, Clone, Eq, PartialEq, Structural)]
pub struct Connection {
    /// The command mailbox of the owning listener.
    pub listener_sender: NetSender,
    /// The application's command mailbox, once bound.
    pub sender: Option<NetSender>,
    /// Whether a reader task has been attached by `BindConn`.
    pub has_reader: bool,
}

/// What the connection table holds: the live connections, keyed by id.
pub uninterp spec fn conn_table(s: super_slab::SuperSlab<Connection>) -> Map<usize, Connection>;

/// The table of a controller that holds no connection.
pub open spec fn empty_conn_table() -> Map<usize, Connection> {
    Map::empty()
}

#[verifier::external_type_specification]
#[verifier::external_body]
#[verifier::reject_recursive_types(T)]
pub struct ExSuperSlab<T>(super_slab::SuperSlab<T>);

/// Relies on `super_slab::SuperSlab::new`: a fresh table holds nothing.
#[verifier::external_body]
fn conn_slab_new() -> (table: super_slab::SuperSlab<Connection>)
    ensures
        conn_table(table) == empty_conn_table(),
{
    super_slab::SuperSlab::new()
}

/// Relies on `super_slab::SuperSlab::insert`: the value is stored in a
/// vacant slot — an id never clashes with a live one — and that slot's key
/// is returned; every other entry is untouched.
#[verifier::external_body]
fn conn_slab_insert(s: &mut super_slab::SuperSlab<Connection>, val: Connection) -> (key: usize)
    ensures
        !conn_table(*old(s)).dom().contains(key),
        conn_table(*final(s)) == conn_table(*old(s)).insert(key, val),
{
    s.insert(val)
}

/// Relies on `super_slab::SuperSlab::get`: the value stored under the key,
/// or nothing when the key is vacant.
#[verifier::external_body]
fn conn_slab_get(s: &super_slab::SuperSlab<Connection>, key: usize) -> (r: Option<Connection>)
    ensures
        match r {
            Option::Some(v) => conn_table(*s).dom().contains(key) && v == conn_table(*s)[key],
            Option::None => !conn_table(*s).dom().contains(key),
        },
{
    match s.get(key) {
        Some(conn) => Some(*conn),
        None => None,
    }
}

/// Relies on `super_slab::SuperSlab::get_mut`: the slot is overwritten
/// exactly when the key is occupied.
#[verifier::external_body]
fn conn_slab_set(s: &mut super_slab::SuperSlab<Connection>, key: usize, val: Connection) -> (r:
    bool)
    ensures
        r == conn_table(*old(s)).dom().contains(key),
        r ==> conn_table(*final(s)) == conn_table(*old(s)).insert(key, val),
        !r ==> conn_table(*final(s)) == conn_table(*old(s)),
{
    match s.get_mut(key) {
        Some(slot) => {
            *slot = val;
            true
        },
        None => false,
    }
}

/// Relies on `super_slab::SuperSlab::remove`: the entry is freed and handed
/// back; the crate panics on a vacant key, so the key must be live.
#[verifier::external_body]
fn conn_slab_remove(s: &mut super_slab::SuperSlab<Connection>, key: usize) -> (r: Connection)
    requires
        conn_table(*old(s)).dom().contains(key),
    ensures
        r == conn_table(*old(s))[key],
        conn_table(*final(s)) == conn_table(*old(s)).remove(key),
{
    s.remove(key)
}

/// Relies on `super_slab::SuperSlab::len`: the number of occupied slots.
#[verifier::external_body]
fn conn_slab_len(s: &super_slab::SuperSlab<Connection>) -> (count: usize)
    ensures
        count == conn_table(*s).len(),
{
    s.len()
}

/// The controller that owns the server and connection tables. All table
/// operations happen inside the controller; the shell performs the returned
/// actions.
pub struct NetController {
    servers: Vec<Server>,
    connections: super_slab::SuperSlab<Connection>,
}

impl NetController {
    /// The bound listeners, in the order they were bound.
    pub closed spec fn servers_spec(&self) -> Seq<Server> {
        self.servers@
    }

    /// The live connections, keyed by id.
    pub closed spec fn connections_spec(&self) -> Map<usize, Connection> {
        conn_table(self.connections)
    }

    /// A fresh controller with empty tables.
    pub fn new() -> (r: Self)
        ensures
            r.servers_spec() =~= Seq::<Server>::empty(),
            r.connections_spec() == empty_conn_table(),
    {
        NetController { servers: Vec::new(), connections: conn_slab_new() }
    }

    /// The number of live connections: what a draining service counts.
    pub fn open_connections(&self) -> (r: usize)
        ensures
            r == self.connections_spec().len(),
    {
        conn_slab_len(&self.connections)
    }

    /// Register an accepted connection under its owning listener's sender,
    /// returning its id.
    ///
    /// Law: connection-id uniqueness. The issued id is never that of a live
    /// connection — the table is keyed by id, so distinct live connections
    /// have distinct ids, and an id is issued again only after `CloseConn`
    /// has evicted its prior holder.
    pub fn register_conn(&mut self, listener_sender: NetSender) -> (id: NetConnId)
        ensures
            !old(self).connections_spec().dom().contains(id),
            final(self).connections_spec() == old(self).connections_spec().insert(
                id,
                Connection { listener_sender, sender: None, has_reader: false },
            ),
            final(self).servers_spec() == old(self).servers_spec(),
    {
        conn_slab_insert(
            &mut self.connections,
            Connection { listener_sender, sender: None, has_reader: false },
        )
    }

    /// Handle one command: update the tables and say what the shell must do.
    ///
    /// A `BindTcpListener` registers the server and asks for its accept
    /// loop. A `BindConn` marks a live connection bound and asks for its
    /// reader. A `CloseConn` evicts a live connection and asks for cancel
    /// and shutdown. A `SendBytes` asks for a whole write to a live
    /// connection. Commands aimed at a vacant id, the reserved UDP commands
    /// and outbound events change nothing.
    pub fn handle(&mut self, cmd: NetCmd) -> (actions: Vec<NetAction>)
        requires
            old(self).servers_spec().len() < usize::MAX,
        ensures
            ({
                let pre_servers = old(self).servers_spec();
                let pre_conns = old(self).connections_spec();
                let post_servers = final(self).servers_spec();
                let post_conns = final(self).connections_spec();
                match cmd {
                    NetCmd::BindTcpListener(addr, _sender) => {
                        &&& post_servers.len() == pre_servers.len() + 1
                        &&& post_servers.last() == (Server {
                            is_dead: false,
                            bind_addr: addr,
                            key: pre_servers.len() as usize,
                        })
                        &&& post_servers.drop_last() == pre_servers
                        &&& post_conns == pre_conns
                        &&& actions@ =~= seq![
                            NetAction::SpawnListener(addr, pre_servers.len() as usize),
                        ]
                    },
                    NetCmd::BindConn(conn_id, sender) => {
                        &&& post_servers == pre_servers
                        &&& if pre_conns.dom().contains(conn_id) {
                            &&& post_conns == pre_conns.insert(
                                conn_id,
                                Connection {
                                    sender: Some(sender),
                                    has_reader: true,
                                    ..pre_conns[conn_id]
                                },
                            )
                            &&& actions@ =~= seq![NetAction::SpawnReader(conn_id, sender)]
                        } else {
                            &&& post_conns == pre_conns
                            &&& actions@ =~= Seq::<NetAction>::empty()
                        }
                    },
                    NetCmd::CloseConn(conn_id) => {
                        &&& post_servers == pre_servers
                        &&& if pre_conns.dom().contains(conn_id) {
                            &&& post_conns == pre_conns.remove(conn_id)
                            &&& actions@ =~= seq![
                                NetAction::CancelReader(conn_id),
                                NetAction::ShutdownConn(conn_id),
                            ]
                        } else {
                            &&& post_conns == pre_conns
                            &&& actions@ =~= Seq::<NetAction>::empty()
                        }
                    },
                    NetCmd::SendBytes(conn_id, bytes) => {
                        &&& post_servers == pre_servers
                        &&& post_conns == pre_conns
                        &&& if pre_conns.dom().contains(conn_id) {
                            actions@ =~= seq![NetAction::WriteConn(conn_id, bytes)]
                        } else {
                            actions@ =~= Seq::<NetAction>::empty()
                        }
                    },
                    _ => {
                        &&& post_servers == pre_servers
                        &&& post_conns == pre_conns
                        &&& actions@ =~= Seq::<NetAction>::empty()
                    },
                }
            }),
    {
        let mut actions: Vec<NetAction> = Vec::new();
        match cmd {
            NetCmd::BindTcpListener(addr, _sender) => {
                let key = self.servers.len();
                let server = Server { is_dead: false, bind_addr: addr.clone(), key };
                self.servers.push(server);
                actions.push(NetAction::SpawnListener(addr, key));
            },
            NetCmd::BindConn(conn_id, sender) => {
                if let Some(conn) = conn_slab_get(&self.connections, conn_id) {
                    let bound = Connection {
                        listener_sender: conn.listener_sender,
                        sender: Some(sender),
                        has_reader: true,
                    };
                    let updated = conn_slab_set(&mut self.connections, conn_id, bound);
                    proof {
                        assert(updated);
                    }
                    actions.push(NetAction::SpawnReader(conn_id, sender));
                }
            },
            NetCmd::CloseConn(conn_id) => {
                if let Some(_conn) = conn_slab_get(&self.connections, conn_id) {
                    let _evicted = conn_slab_remove(&mut self.connections, conn_id);
                    actions.push(NetAction::CancelReader(conn_id));
                    actions.push(NetAction::ShutdownConn(conn_id));
                }
            },
            NetCmd::SendBytes(conn_id, bytes) => {
                if let Some(_conn) = conn_slab_get(&self.connections, conn_id) {
                    actions.push(NetAction::WriteConn(conn_id, bytes));
                }
            },
            _ => {},
        }
        actions
    }
}

/// The process-wide network front: a lifecycle state and, while running,
/// the handle of the controller's command mailbox.
pub struct NetCore {
    state: ServiceState,
    sender: Option<NetSender>,
}

impl NetCore {
    /// The lifecycle state of the network core.
    pub closed spec fn state_spec(&self) -> ServiceState {
        self.state
    }

    /// The command mailbox handle, while one is installed.
    pub closed spec fn sender_spec(&self) -> Option<NetSender> {
        self.sender
    }

    /// A network core that has not been started.
    pub fn new() -> (r: Self)
        ensures
            r.state_spec() == ServiceState::Init,
            r.sender_spec() is None,
    {
        NetCore { state: ServiceState::Init, sender: None }
    }

    /// Start the network: if it has never been started, install the command
    /// mailbox handle and move to `Running`. Returns whether the controller
    /// task must be spawned; a repeated start changes nothing.
    pub fn start(&mut self, sender: NetSender) -> (spawned: bool)
        ensures
            old(self).state_spec().can_start_spec() ==> spawned && final(self).state_spec()
                == ServiceState::Running && final(self).sender_spec() == Option::Some(sender),
            !old(self).state_spec().can_start_spec() ==> !spawned && *final(self) == *old(self),
    {
        if !self.state.can_start() {
            return false;
        }
        let started = self.state.start();
        let running = self.state.run();
        proof {
            assert(started is Ok && running is Ok);
        }
        self.sender = Some(sender);
        true
    }

    /// The command mailbox handle, if the network is running.
    pub fn get_sender(&self) -> (r: Option<NetSender>)
        ensures
            r == (if self.state_spec() == ServiceState::Running {
                self.sender_spec()
            } else {
                Option::<NetSender>::None
            }),
    {
        if self.state.is_running() {
            self.sender
        } else {
            None
        }
    }

    /// Stop the network: move to `Stopped` unless already there. Returns
    /// the handle of the command mailbox the shell must close, if one was
    /// installed.
    pub fn stop(&mut self) -> (close: Option<NetSender>)
        ensures
            old(self).state_spec().can_stop_spec() ==> final(self).state_spec()
                == ServiceState::Stopped,
            !old(self).state_spec().can_stop_spec() ==> final(self).state_spec() == old(
                self,
            ).state_spec(),
            final(self).sender_spec() == old(self).sender_spec(),
            close == old(self).sender_spec(),
    {
        if self.state.can_stop() {
            let stopped = self.state.stop();
            proof {
                assert(stopped is Ok);
            }
        }
        self.sender
    }
}

} // verus!
