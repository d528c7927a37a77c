use machine_core::message::{ChaosMonkeyMutation, TestMessage};

#[test]
fn test_chaos_monkey_variant() {
    let v = TestMessage::ChaosMonkey {
        counter: 0,
        max: 1,
        mutation: ChaosMonkeyMutation::Increment,
    };
    assert_eq!(true, v.can_advance());
    if let TestMessage::ChaosMonkey { counter, max, mutation } = v {
        assert_eq!(counter, 0);
        assert_eq!(max, 1);
        assert_eq!(mutation, ChaosMonkeyMutation::Increment);
    } else {
        assert_eq!(true, false)
    }
}

#[test]
fn test_advance() {
    let v = TestMessage::ChaosMonkey {
        counter: 0,
        max: 1,
        mutation: ChaosMonkeyMutation::Increment,
    };
    let v = v.advance();
    if let TestMessage::ChaosMonkey { counter, max, mutation } = v {
        assert_eq!(counter, 1);
        assert_eq!(max, 1);
        assert_eq!(mutation, ChaosMonkeyMutation::Increment);
    } else {
        assert_eq!(true, false)
    }
    assert_eq!(true, v.can_advance());
}

#[test]
fn test_advance_ends() {
    let v = TestMessage::ChaosMonkey {
        counter: 0,
        max: 1,
        mutation: ChaosMonkeyMutation::Increment,
    };
    let v = v.advance();
    let v = v.advance();
    assert_eq!(true, v.can_advance());
    let v = v.advance();
    if let TestMessage::ChaosMonkey { counter, max, mutation } = v {
        assert_eq!(counter, 0);
        assert_eq!(max, 1);
        assert_eq!(mutation, ChaosMonkeyMutation::Decrement);
    } else {
        assert_eq!(true, false)
    }
    assert_eq!(false, v.can_advance());
    let v = v.advance();
    if let TestMessage::ChaosMonkey { counter, max, mutation } = v {
        assert_eq!(counter, 0);
        assert_eq!(max, 1);
        assert_eq!(mutation, ChaosMonkeyMutation::Decrement);
    } else {
        assert_eq!(true, false)
    }
}

// An injected message with inflection `max` advances exactly `2 * max + 1`
// times before it turns terminal.
#[test]
fn advance_count_matches_inflection() {
    let max = 5u32;
    let mut v = TestMessage::ChaosMonkey {
        counter: 0,
        max,
        mutation: ChaosMonkeyMutation::Increment,
    };
    let mut advances = 0u32;
    while v.can_advance() {
        v = v.advance();
        advances += 1;
        assert!(advances <= 2 * max + 1);
    }
    assert_eq!(advances, 2 * max + 1);
}

#[test]
fn advance_leaves_other_messages_alone() {
    let v = TestMessage::TestData(17);
    match v.advance() {
        TestMessage::TestData(seq) => assert_eq!(seq, 17),
        _ => panic!("advance changed the message kind"),
    }
    assert_eq!(false, TestMessage::Test.can_advance());
}
