use swapbytes::state::{default_rooms, GlobalState};

#[test]
fn a_new_state_knows_the_default_rooms() {
    let state: GlobalState<u32> = GlobalState::new();
    assert_eq!(state.rooms, vec!["Global", "COSC473", "COSC478", "SENG406", "SENG402"]);
    assert_eq!(state.rooms, default_rooms());
    assert_eq!(state.current_room, "Global");
    assert_eq!(state.nickname, "");
    assert_eq!(state.peer_id, "");
    assert!(state.peers.is_empty());
    assert!(state.requests.is_empty());
    assert_eq!(state.current_rating, None);
    assert_eq!(state.messages.len(), 0);
    assert_eq!(state.nicknames.len(), 0);
    assert_eq!(state.notifications.len(), 0);
}

#[test]
fn a_peer_is_shown_by_its_identity_until_its_nickname_is_known() {
    let mut state: GlobalState<u32> = GlobalState::new();
    assert_eq!(state.display_name("P_A"), "P_A");
    state.set_nickname("P_A", "Alice".to_string());
    assert_eq!(state.display_name("P_A"), "Alice");
    assert_eq!(state.display_name("P_B"), "P_B");
    state.set_nickname("P_A", "Alicia".to_string());
    assert_eq!(state.display_name("P_A"), "Alicia");
}

#[test]
fn a_history_is_seeded_once() {
    let mut state: GlobalState<u32> = GlobalState::new();
    state.seed_history("Global", "first".to_string());
    state.seed_history("Global", "second".to_string());
    assert_eq!(state.messages.get("Global"), Some(&vec!["first".to_string()]));
}

#[test]
fn a_line_for_a_new_topic_follows_the_welcome_line() {
    let mut state: GlobalState<u32> = GlobalState::new();
    state.append_line("COSC473", "Alice: hi".to_string());
    assert_eq!(
        state.messages.get("COSC473"),
        Some(&vec!["✨ Welcome to the COSC473 chat!".to_string(), "Alice: hi".to_string()])
    );
    state.append_line("COSC473", "Bob: ho".to_string());
    assert_eq!(
        state.messages.get("COSC473"),
        Some(&vec![
            "✨ Welcome to the COSC473 chat!".to_string(),
            "Alice: hi".to_string(),
            "Bob: ho".to_string()
        ])
    );
    assert_eq!(state.messages.len(), 1);
}

#[test]
fn a_notification_is_set_and_cleared_for_one_topic() {
    let mut state: GlobalState<u32> = GlobalState::new();
    state.set_notification("Global", true);
    state.set_notification("COSC473", true);
    state.set_notification("Global", false);
    assert_eq!(state.notifications.get("Global"), Some(&false));
    assert_eq!(state.notifications.get("COSC473"), Some(&true));
    assert_eq!(state.notifications.get("SENG406"), None);
}
