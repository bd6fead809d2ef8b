use swapbytes::network::action::Action;
use swapbytes::network::rooms::{join_rooms, subscribe};
use swapbytes::state::GlobalState;

#[test]
fn a_topic_is_subscribed_once() {
    let mut subscribed = Vec::new();
    let mut actions: Vec<Action<u32>> = Vec::new();
    subscribe(&mut subscribed, "Global", &mut actions);
    subscribe(&mut subscribed, "Global", &mut actions);
    subscribe(&mut subscribed, "COSC473", &mut actions);
    assert_eq!(subscribed, vec!["Global", "COSC473"]);
    assert_eq!(
        actions,
        vec![
            Action::Subscribe { topic: "Global".to_string() },
            Action::Subscribe { topic: "COSC473".to_string() }
        ]
    );
}

#[test]
fn joining_rooms_subscribes_and_seeds_what_is_new() {
    let mut state: GlobalState<u32> = GlobalState::new();
    state.append_line("B", "Bob: hi".to_string());
    let mut subscribed = vec!["A".to_string()];
    let mut actions: Vec<Action<u32>> = vec![Action::Listen { address: "x".to_string() }];
    let rooms = vec!["A".to_string(), "B".to_string(), "C".to_string(), "B".to_string()];
    join_rooms(&mut state, &mut subscribed, &rooms, &mut actions);
    assert_eq!(subscribed, vec!["A", "B", "C"]);
    assert_eq!(
        actions,
        vec![
            Action::Listen { address: "x".to_string() },
            Action::Subscribe { topic: "B".to_string() },
            Action::Subscribe { topic: "C".to_string() }
        ]
    );
    assert_eq!(state.messages.get("A"), Some(&vec!["✨ Welcome to the A chat!".to_string()]));
    assert_eq!(
        state.messages.get("B"),
        Some(&vec!["✨ Welcome to the B chat!".to_string(), "Bob: hi".to_string()])
    );
    assert_eq!(state.messages.get("C"), Some(&vec!["✨ Welcome to the C chat!".to_string()]));

    // a second time nothing is new
    let before = actions.len();
    join_rooms(&mut state, &mut subscribed, &rooms, &mut actions);
    assert_eq!(actions.len(), before);
    assert_eq!(subscribed, vec!["A", "B", "C"]);
    assert_eq!(state.messages.len(), 3);
}
