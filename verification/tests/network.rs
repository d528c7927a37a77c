use machine_core::mailbox::{Mailbox, TryRecvError, TrySendError};
use machine_core::net::{
    read_chunk, reader_decision, unsent_suffix, NetAction, NetCmd, NetController, NetCore,
    ReaderDecision,
};
use machine_core::service::ServiceState;

#[test]
fn test_network_start() {
    let mut core = NetCore::new();
    assert!(core.start(0));
}

#[test]
fn network_lifecycle() {
    let mut core = NetCore::new();
    assert_eq!(None, core.get_sender());
    assert!(core.start(7));
    assert_eq!(Some(7), core.get_sender());
    // A repeated start is a no-op.
    assert!(!core.start(9));
    assert_eq!(Some(7), core.get_sender());
    // Stopping hands back the mailbox to close and leaves Running behind.
    assert_eq!(Some(7), core.stop());
    assert_eq!(None, core.get_sender());
    // A stopped network cannot be started again.
    assert!(!core.start(9));
}

#[test]
fn controller_binds_listener() {
    let mut ctl = NetController::new();
    let actions = ctl.handle(NetCmd::BindTcpListener("127.0.0.1:1999".to_string(), 3));
    assert_eq!(1, actions.len());
    match &actions[0] {
        NetAction::SpawnListener(addr, key) => {
            assert_eq!("127.0.0.1:1999", addr);
            assert_eq!(0, *key);
        }
        _ => panic!("expected a listener spawn"),
    }
}

#[test]
fn controller_conn_ids_are_unique_and_reused_after_eviction() {
    let mut ctl = NetController::new();
    let a = ctl.register_conn(1);
    let b = ctl.register_conn(1);
    let c = ctl.register_conn(2);
    assert_ne!(a, b);
    assert_ne!(a, c);
    assert_ne!(b, c);
    assert_eq!(3, ctl.open_connections());

    // Evict one; only after that may its id come back.
    let actions = ctl.handle(NetCmd::CloseConn(b));
    assert_eq!(2, actions.len());
    assert!(matches!(actions[0], NetAction::CancelReader(id) if id == b));
    assert!(matches!(actions[1], NetAction::ShutdownConn(id) if id == b));
    assert_eq!(2, ctl.open_connections());

    let d = ctl.register_conn(2);
    assert_ne!(d, a);
    assert_ne!(d, c);
    assert_eq!(3, ctl.open_connections());
}

#[test]
fn controller_ignores_vacant_ids() {
    let mut ctl = NetController::new();
    assert_eq!(0, ctl.handle(NetCmd::BindConn(5, 1)).len());
    assert_eq!(0, ctl.handle(NetCmd::CloseConn(5)).len());
    assert_eq!(0, ctl.handle(NetCmd::SendBytes(5, vec![1, 2, 3])).len());
    assert_eq!(0, ctl.handle(NetCmd::Stop).len());
}

#[test]
fn controller_binds_and_writes_connections() {
    let mut ctl = NetController::new();
    let id = ctl.register_conn(4);
    let actions = ctl.handle(NetCmd::BindConn(id, 8));
    assert_eq!(1, actions.len());
    assert!(matches!(actions[0], NetAction::SpawnReader(conn, sender) if conn == id && sender == 8));

    let actions = ctl.handle(NetCmd::SendBytes(id, vec![9, 9]));
    assert_eq!(1, actions.len());
    match &actions[0] {
        NetAction::WriteConn(conn, bytes) => {
            assert_eq!(*conn, id);
            assert_eq!(&vec![9u8, 9u8], bytes);
        }
        _ => panic!("expected a write"),
    }
}

#[test]
fn reader_and_writer_rules() {
    assert_eq!(ReaderDecision::CloseBoth, reader_decision(None));
    assert_eq!(ReaderDecision::CloseBoth, reader_decision(Some(0)));
    assert_eq!(ReaderDecision::Deliver(7), reader_decision(Some(7)));

    let chunk = read_chunk(vec![1, 2, 3, 4, 0, 0], 4);
    assert_eq!(vec![1, 2, 3, 4], chunk);

    let rest = unsent_suffix(vec![1, 2, 3, 4, 5], 2);
    assert_eq!(vec![3, 4, 5], rest);
    let rest = unsent_suffix(rest, 3);
    assert!(rest.is_empty());
}

#[test]
fn mailbox_drains_in_send_order() {
    let mut m: Mailbox<usize> = Mailbox::unbounded();
    for i in 0..5 {
        assert!(m.try_send(i * 10).is_ok());
    }
    let drained = m.drain();
    assert_eq!(vec![0, 10, 20, 30, 40], drained);
    assert_eq!(0, m.len());
    assert_eq!(Err(TryRecvError::Empty), m.try_recv());
}

#[test]
fn mailbox_is_fifo() {
    let mut m: Mailbox<usize> = Mailbox::unbounded();
    for i in 0..10 {
        assert!(m.try_send(i).is_ok());
    }
    for i in 0..10 {
        assert_eq!(Ok(i), m.try_recv());
    }
    assert_eq!(Err(TryRecvError::Empty), m.try_recv());
}

#[test]
fn mailbox_bounded_refuses_when_full() {
    let mut m: Mailbox<u8> = Mailbox::bounded(2);
    assert_eq!(Some(2), m.capacity());
    assert!(m.try_send(1).is_ok());
    assert!(m.try_send(2).is_ok());
    assert_eq!(Err(TrySendError::Full), m.try_send(3));
    assert_eq!(2, m.len());
    assert_eq!(Ok(1), m.try_recv());
    assert!(m.try_send(3).is_ok());
}

#[test]
fn mailbox_close_is_idempotent_and_drainable() {
    let mut m: Mailbox<u8> = Mailbox::unbounded();
    assert!(m.try_send(5).is_ok());
    m.close();
    m.close();
    assert!(m.is_closed());
    assert_eq!(Err(TrySendError::Closed), m.try_send(6));
    // Queued items remain drainable after the close.
    assert_eq!(Ok(5), m.try_recv());
    assert_eq!(Err(TryRecvError::Closed), m.try_recv());
}

#[test]
fn service_state_maps_into_network() {
    // The network front reuses the service lifecycle: Init may start,
    // Running may not.
    let state = ServiceState::Init;
    assert!(state.can_start());
    let state = ServiceState::Running;
    assert!(!state.can_start());
}
