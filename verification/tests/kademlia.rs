use swapbytes::network::action::Action;
use swapbytes::network::behaviour::kademlia::{
    add_delta, apply_nickname, apply_rating, apply_rooms, record_found, store_rating,
};
use swapbytes::network::codec::Value;
use swapbytes::network::pending::{
    NicknameFetch, PendingQueries, QueryPurpose, RatingFetch, RatingUpdate,
};
use swapbytes::network::record::{Quorum, Record};
use swapbytes::state::GlobalState;

fn rating_record(peer: &str, rating: i32) -> Action<u32> {
    Action::PutRecord {
        record: Record {
            key: format!("rating_{}", peer),
            value: serde_cbor::to_vec(&rating).unwrap(),
            publisher: None,
            expires: None,
        },
        quorum: Quorum::One,
        required: false,
    }
}

#[test]
fn a_rating_changes_by_its_delta_within_32_bits() {
    assert_eq!(add_delta(0, 1), Some(1));
    assert_eq!(add_delta(0, -1), Some(-1));
    assert_eq!(add_delta(41, 1), Some(42));
    assert_eq!(add_delta(-5, 5), Some(0));
    assert_eq!(add_delta(i32::MAX, 0), Some(i32::MAX));
    assert_eq!(add_delta(i32::MAX - 1, 1), Some(i32::MAX));
    assert_eq!(add_delta(i32::MAX, 1), None);
    assert_eq!(add_delta(i32::MIN, -1), None);
    assert_eq!(add_delta(i32::MIN, 1), Some(i32::MIN + 1));
    assert_eq!(add_delta(i32::MIN, i32::MIN), None);
}

#[test]
fn the_changed_rating_is_stored_under_the_rating_key() {
    assert_eq!(store_rating::<u32>("P_B", 4, -1), vec![rating_record("P_B", 3)]);
    assert_eq!(store_rating::<u32>("P_B", -1, 1), vec![rating_record("P_B", 0)]);
    assert_eq!(store_rating::<u32>("P_B", i32::MAX, 1), vec![]);
}

#[test]
fn a_nickname_resolves_the_lookup_that_waits_for_it() {
    let mut state: GlobalState<u32> = GlobalState::new();
    let mut pending = PendingQueries::new();
    pending.register(
        3,
        QueryPurpose::NicknameFetch(NicknameFetch {
            peer: "P_B".to_string(),
            dm_topic: Some("P_B_P_A".to_string()),
        }),
    );
    apply_nickname(4, "Nobody".to_string(), &mut state, &mut pending);
    assert!(pending.contains(3));
    assert_eq!(state.nicknames.len(), 0);
    apply_nickname(3, "Bob".to_string(), &mut state, &mut pending);
    assert!(!pending.contains(3));
    assert_eq!(state.nicknames.get("P_B"), Some(&"Bob".to_string()));
    assert_eq!(state.messages.get("P_B_P_A"), Some(&vec!["😀 Chatting with Bob".to_string()]));
}

#[test]
fn a_nickname_that_resolves_again_leaves_the_history_of_the_channel() {
    let mut state: GlobalState<u32> = GlobalState::new();
    let mut pending = PendingQueries::new();
    state.append_line("P_B_P_A", "Bob: hi".to_string());
    pending.register(
        3,
        QueryPurpose::NicknameFetch(NicknameFetch {
            peer: "P_B".to_string(),
            dm_topic: Some("P_B_P_A".to_string()),
        }),
    );
    apply_nickname(3, "Bobby".to_string(), &mut state, &mut pending);
    assert_eq!(state.nicknames.get("P_B"), Some(&"Bobby".to_string()));
    assert_eq!(
        state.messages.get("P_B_P_A"),
        Some(&vec!["✨ Welcome to the P_B_P_A chat!".to_string(), "Bob: hi".to_string()])
    );
}

#[test]
fn a_rating_resolves_a_message_before_an_update() {
    let mut state: GlobalState<u32> = GlobalState::new();
    let mut pending = PendingQueries::new();
    pending.register(
        1,
        QueryPurpose::RatingFetch(RatingFetch {
            message: "hello".to_string(),
            nickname: "Alice".to_string(),
            topic: "Global".to_string(),
        }),
    );
    pending.register(
        2,
        QueryPurpose::RatingUpdate(RatingUpdate { peer: "P_C".to_string(), delta: -1 }),
    );
    assert_eq!(apply_rating(2, 10, &mut state, &mut pending), vec![rating_record("P_C", 9)]);
    assert!(!pending.contains(2));
    assert!(pending.contains(1));
    assert_eq!(state.messages.len(), 0);
    assert_eq!(apply_rating(1, 10, &mut state, &mut pending), vec![]);
    assert!(!pending.contains(1));
    assert_eq!(
        state.messages.get("Global"),
        Some(&vec!["✨ Welcome to the Global chat!".to_string(), "😇 Alice: hello".to_string()])
    );
    assert_eq!(apply_rating(1, 10, &mut state, &mut pending), vec![]);
    assert_eq!(state.messages.get("Global").map(|lines| lines.len()), Some(2));
}

#[test]
fn fetched_rooms_come_before_the_default_rooms() {
    let mut state: GlobalState<u32> = GlobalState::new();
    let mut subscribed = vec!["Global".to_string()];
    let actions = apply_rooms(vec!["Study".to_string()], &mut state, &mut subscribed);
    assert_eq!(
        actions,
        vec![
            Action::Subscribe { topic: "Study".to_string() },
            Action::Subscribe { topic: "COSC473".to_string() },
            Action::Subscribe { topic: "COSC478".to_string() },
            Action::Subscribe { topic: "SENG406".to_string() },
            Action::Subscribe { topic: "SENG402".to_string() },
        ]
    );
    assert_eq!(state.rooms, vec!["Study", "Global", "COSC473", "COSC478", "SENG406", "SENG402"]);
    assert_eq!(
        subscribed,
        vec!["Global", "Study", "COSC473", "COSC478", "SENG406", "SENG402"]
    );
    assert_eq!(state.messages.len(), 6);
    let actions = apply_rooms(Vec::new(), &mut state, &mut subscribed);
    assert_eq!(actions, vec![]);
    assert_eq!(state.rooms, vec!["Global", "COSC473", "COSC478", "SENG406", "SENG402"]);
    assert_eq!(state.messages.len(), 6);
}

#[test]
fn a_found_value_goes_to_the_table_of_its_shape() {
    let mut state: GlobalState<u32> = GlobalState::new();
    let mut pending = PendingQueries::new();
    let mut subscribed = Vec::new();
    pending.register(
        9,
        QueryPurpose::RatingUpdate(RatingUpdate { peer: "P_C".to_string(), delta: 1 }),
    );
    let actions = record_found(
        9,
        Value::Nickname("Carol".to_string()),
        &mut state,
        &mut pending,
        &mut subscribed,
    );
    assert_eq!(actions, vec![]);
    assert!(pending.contains(9));
    let actions = record_found(9, Value::Rating(0), &mut state, &mut pending, &mut subscribed);
    assert_eq!(actions, vec![rating_record("P_C", 1)]);
    assert!(!pending.contains(9));
}
