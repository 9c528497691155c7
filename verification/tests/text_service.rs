use halving_api::service::{coinbase_reward_sompi, join_ack_text, ws_action_for, WsAction};
use halving_api::text::{decimal_string, str_eq};

#[test]
fn decimal_rendering_of_small_numbers() {
    assert_eq!(decimal_string(0), "0");
    assert_eq!(decimal_string(7), "7");
    assert_eq!(decimal_string(40), "40");
    assert_eq!(decimal_string(100000000), "100000000");
}

#[test]
fn decimal_rendering_matches_std() {
    let samples: [u64; 6] = [0, 9, 10, 12345678901234567890, u64::MAX, 1000000007];
    for &n in samples.iter() {
        assert_eq!(decimal_string(n), format!("{}", n));
    }
}

#[test]
fn string_equality_by_characters() {
    assert!(str_eq("last-blocks", "last-blocks"));
    assert!(!str_eq("last-blocks", "last-block"));
    assert!(!str_eq("", "a"));
    assert!(str_eq("", ""));
    assert!(!str_eq("abc", "abd"));
}

#[test]
fn ws_messages_map_to_actions() {
    assert_eq!(ws_action_for("last-blocks"), WsAction::PushBlocks);
    assert_eq!(ws_action_for("join-room"), WsAction::AckJoin);
    assert_eq!(ws_action_for("LAST-BLOCKS"), WsAction::Ignore);
    assert_eq!(ws_action_for("last-blocks "), WsAction::Ignore);
    assert_eq!(ws_action_for(""), WsAction::Ignore);
    assert_eq!(ws_action_for("ping"), WsAction::Ignore);
}

#[test]
fn join_room_acknowledgment_text() {
    assert_eq!(join_ack_text(), "Joined room");
}

#[test]
fn coinbase_reward_takes_the_first_output() {
    assert_eq!(coinbase_reward_sompi(&vec![50000000000, 7, 9]), 50000000000);
    assert_eq!(coinbase_reward_sompi(&vec![123]), 123);
    assert_eq!(coinbase_reward_sompi(&Vec::new()), 0);
}
