use netsync::history::InputHistory;
use netsync::protocol::{PlayerInput, Vec2Fix};

fn neutral() -> PlayerInput {
    PlayerInput {
        move_direction: Vec2Fix { x: 0, y: 0 },
        jump: false,
        yaw: 0,
        pitch: 0,
        sequence_number: 0,
    }
}

#[test]
fn sequence_numbers_increase_by_one() {
    let mut h = InputHistory::new();
    assert_eq!(h.record(neutral()), 0);
    assert_eq!(h.record(neutral()), 1);
    assert_eq!(h.record(neutral()), 2);
    assert_eq!(h.next_sequence(), 3);
}

#[test]
fn record_stamps_the_input() {
    let mut h = InputHistory::new();
    let mut input = neutral();
    input.sequence_number = 999; // the history overrides whatever was here
    let seq = h.record(input);
    assert_eq!(seq, 0);
    assert_eq!(h.entry_at(0).sequence_number, 0);
}

#[test]
fn acknowledge_trims_exactly_the_prefix() {
    let mut h = InputHistory::new();
    for _ in 0..5 {
        h.record(neutral());
    }
    h.acknowledge_up_to(2);
    assert_eq!(h.len(), 2);
    assert_eq!(h.entry_at(0).sequence_number, 3);
    assert_eq!(h.entry_at(1).sequence_number, 4);
    // acknowledging the same number again removes nothing more
    h.acknowledge_up_to(2);
    assert_eq!(h.len(), 2);
    // acknowledging everything empties the log
    h.acknowledge_up_to(4);
    assert_eq!(h.len(), 0);
}

#[test]
fn acknowledge_of_unseen_number_clears_older_entries_only() {
    let mut h = InputHistory::new();
    for _ in 0..3 {
        h.record(neutral());
    }
    h.acknowledge_up_to(100);
    assert_eq!(h.len(), 0);
    // the counter is untouched by acknowledgement
    assert_eq!(h.next_sequence(), 3);
}

#[test]
fn history_is_bounded_by_one_hundred() {
    let mut h = InputHistory::new();
    for i in 0..120 {
        h.record(neutral());
        assert!(h.len() <= 100, "exceeded the bound after {} records", i + 1);
    }
    assert_eq!(h.len(), 100);
}

#[test]
fn one_hundred_fifty_records_retain_the_newest_hundred() {
    let mut h = InputHistory::new();
    for _ in 0..150 {
        h.record(neutral());
    }
    assert_eq!(h.len(), 100);
    assert_eq!(h.entry_at(0).sequence_number, 50);
    assert_eq!(h.entry_at(99).sequence_number, 149);
}

#[test]
fn most_recent_is_the_newest_entry() {
    let mut h = InputHistory::new();
    assert_eq!(h.most_recent(), None);
    let mut a = neutral();
    a.jump = true;
    h.record(a);
    let b = neutral();
    h.record(b);
    let newest = h.most_recent().unwrap();
    assert_eq!(newest.sequence_number, 1);
    assert!(!newest.jump);
}
