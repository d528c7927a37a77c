use machine_core::adapter::{MachineError, MachineSender};
use machine_core::chaos_monkey::ChaosMonkeyDriver;
use machine_core::daisy_chain::DaisyChainDriver;
use machine_core::forwarder::Forwarder;
use machine_core::message::TestMessage;

#[test]
fn small_daisy_chain() {
    let mut config = DaisyChainDriver::default();
    config.machine_count = 100;
    config.message_count = 100;
    config.setup();
    assert_eq!(config.machine_count, config.forwarders.len());
    assert_eq!(config.machine_count, config.senders.len());
    assert_eq!(Some(0), config.first_sender);
    for (i, handle) in config.senders.iter().enumerate() {
        assert_eq!(i, *handle);
    }
    config.run();

    for f in config.forwarders.iter_mut() {
        assert_eq!(config.message_count, f.get_and_clear_received_count());
    }
    assert_eq!(1, config.completions);
    DaisyChainDriver::teardown(config);
}

#[test]
fn multiplied_daisy_chain() {
    let mut config = DaisyChainDriver::default();
    config.machine_count = 4;
    config.message_count = 3;
    config.forwarding_multiplier = 2;
    config.setup();
    assert_eq!(config.expected_message_count, 24);
    config.run();

    let counts: Vec<usize> = config
        .forwarders
        .iter_mut()
        .map(|f| f.get_and_clear_received_count())
        .collect();
    assert_eq!(counts, vec![3, 6, 12, 24]);
    assert_eq!(1, config.completions);
}

#[test]
fn small_chaos_monkey() {
    // Each monkey that receives the message forwards it until its counter
    // has climbed to the inflection and descended to zero. Ten messages at
    // inflection 99 give (99 + 1) * 2 * 10 forwarder receives plus 10
    // notifier receives: 2010 in all.
    let mut config = ChaosMonkeyDriver::default();
    config.machine_count = 10;
    config.message_count = 10;
    let expected = (config.inflection_value as usize + 1) * 2 * config.message_count
        + config.message_count;
    config.setup();
    assert_eq!(config.machine_count, config.senders.len());
    config.run();
    let mut total = 0;
    for f in config.forwarders.iter_mut() {
        let count = f.get_and_clear_received_count();
        total += count;
    }
    println!("total messages received={}, expected={}", total, expected);
    assert_eq!(total, expected);
    assert_eq!(1, config.completions);
    ChaosMonkeyDriver::teardown(config);
}

// With a single monkey in the mesh, every random pick must land on it: the
// run panics if the uniform draw could step outside `0 .. n`.
#[test]
fn single_monkey_chaos() {
    let mut config = ChaosMonkeyDriver::default();
    config.machine_count = 1;
    config.message_count = 3;
    config.inflection_value = 2;
    config.setup();
    config.run();
    let expected = (config.inflection_value as usize + 1) * 2 * config.message_count
        + config.message_count;
    let mut total = 0;
    for f in config.forwarders.iter_mut() {
        total += f.get_and_clear_received_count();
    }
    assert_eq!(total, expected);
    assert_eq!(1, config.completions);
}

#[test]
fn forwarder_counts_and_emissions() {
    let mut f = Forwarder::new(1);
    assert_eq!(1, f.get_id());
    let mut buf: MachineSender<TestMessage> = MachineSender::new();

    assert!(f.receive(TestMessage::AddSender(9), &mut buf).is_ok());
    assert!(f.receive(TestMessage::ForwardingMultiplier(3), &mut buf).is_ok());
    assert_eq!(0, buf.len());

    assert!(f.receive(TestMessage::TestData(0), &mut buf).is_ok());
    let pairs = buf.drain();
    assert_eq!(3, pairs.len());
    for (i, (target, msg)) in pairs.into_iter().enumerate() {
        assert_eq!(9, target);
        match msg {
            TestMessage::TestData(seq) => assert_eq!(i, seq),
            _ => panic!("expected a forwarded TestData"),
        }
    }
    assert_eq!(1, f.get_and_clear_received_count());
    assert_eq!(0, f.get_and_clear_received_count());
}

#[test]
fn forwarder_rejects_out_of_sequence_data() {
    let mut f = Forwarder::new(2);
    let mut buf: MachineSender<TestMessage> = MachineSender::new();
    assert!(f.receive(TestMessage::TestData(0), &mut buf).is_ok());
    assert!(f.receive(TestMessage::TestData(1), &mut buf).is_ok());
    match f.receive(TestMessage::TestData(7), &mut buf) {
        Err(MachineError::SequenceError { expected, received }) => {
            assert_eq!(2, expected);
            assert_eq!(7, received);
        }
        _ => panic!("expected a sequence error"),
    }
    // A zero resets the sequence.
    assert!(f.receive(TestMessage::TestData(0), &mut buf).is_ok());
    assert!(f.receive(TestMessage::TestData(1), &mut buf).is_ok());
}

#[test]
fn forwarder_notifies_at_count() {
    let mut f = Forwarder::new(3);
    let mut buf: MachineSender<TestMessage> = MachineSender::new();
    assert!(f.receive(TestMessage::Notify(42, 2), &mut buf).is_ok());
    assert!(f.receive(TestMessage::TestData(0), &mut buf).is_ok());
    assert_eq!(0, buf.len());
    assert!(f.receive(TestMessage::TestData(1), &mut buf).is_ok());
    let pairs = buf.drain();
    assert_eq!(1, pairs.len());
    assert_eq!(42, pairs[0].0);
    match &pairs[0].1 {
        TestMessage::TestData(count) => assert_eq!(2, *count),
        _ => panic!("expected a TestData notification"),
    }
}

#[test]
fn forwarder_replicates_plain_messages() {
    let mut f = Forwarder::new(4);
    let mut buf: MachineSender<TestMessage> = MachineSender::new();
    assert!(f.receive(TestMessage::AddSenders(vec![5, 6]), &mut buf).is_ok());
    assert!(f.receive(TestMessage::Test, &mut buf).is_ok());
    let pairs = buf.drain();
    assert_eq!(2, pairs.len());
    assert_eq!(5, pairs[0].0);
    assert_eq!(6, pairs[1].0);
    assert!(matches!(pairs[0].1, TestMessage::Test));
    assert!(matches!(pairs[1].1, TestMessage::Test));

    assert!(f.receive(TestMessage::RemoveAllSenders, &mut buf).is_ok());
    assert!(f.receive(TestMessage::Test, &mut buf).is_ok());
    assert_eq!(0, buf.len());
}
