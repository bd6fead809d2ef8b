use ratatui::widgets::ListState;
use swapbytes::network::command::Command;
use swapbytes::state::GlobalState;
use swapbytes::ui::components::{Key, Selection, Tab};
use swapbytes::ui::page::chat::Chat;
use swapbytes::ui::page::direct::{Direct, Section as DirectSection};
use swapbytes::ui::page::landing::Landing;
use swapbytes::ui::page::rating::Rating;
use swapbytes::ui::page::rooms_menu::{format_title, unseen, RoomMenu, Section as MenuSection};
use swapbytes::ui::router::Router;

fn state() -> GlobalState<u32> {
    let mut state = GlobalState::new();
    state.peer_id = "P_A".to_string();
    state.nickname = "Alice".to_string();
    state
}

fn type_text<F: FnMut(Key)>(text: &str, mut press: F) {
    for c in text.chars() {
        press(Key::Char(c));
    }
}

#[test]
fn tabs_follow_each_other_in_a_cycle() {
    assert_eq!(Tab::Chat.next(), Tab::RoomMenu);
    assert_eq!(Tab::RoomMenu.next(), Tab::Direct);
    assert_eq!(Tab::Direct.next(), Tab::Chat);
    assert_eq!(Tab::Rating.next(), Tab::Chat);
    assert_eq!(Tab::default(), Tab::Chat);
    assert_eq!(
        [Tab::Chat.index(), Tab::RoomMenu.index(), Tab::Direct.index(), Tab::Rating.index()],
        [0, 1, 2, 3]
    );
}

#[test]
fn a_selection_moves_like_that_of_a_list() {
    let mut selection = Selection::new();
    assert_eq!(selection.selected(), None);
    selection.select_next();
    assert_eq!(selection.selected(), Some(0));
    selection.select_next();
    assert_eq!(selection.selected(), Some(1));
    selection.select_previous();
    selection.select_previous();
    assert_eq!(selection.selected(), Some(0));
    selection.select(None);
    selection.select_previous();
    assert_eq!(selection.selected(), Some(usize::MAX));
    selection.select_next();
    assert_eq!(selection.selected(), Some(usize::MAX));
    selection.select_first();
    assert_eq!(selection.selected(), Some(0));
    selection.select(Some(7));
    assert_eq!(selection.selected(), Some(7));
}

#[test]
fn the_landing_page_takes_a_nickname() {
    let mut state = state();
    state.nickname = String::new();
    let mut page = Landing::new();
    assert!(!page.handle_events(&mut state, Key::Enter));
    assert_eq!(state.nickname, "");
    type_text("Bobx", |k| assert!(!page.handle_events(&mut state, k)));
    assert!(!page.handle_events(&mut state, Key::Backspace));
    assert_eq!(page.input(), "Bob");
    assert!(!page.handle_events(&mut state, Key::Up));
    assert!(page.handle_events(&mut state, Key::Enter));
    assert_eq!(state.nickname, "Bob");
    assert_eq!(page.input(), "");
}

#[test]
fn escape_leaves_the_landing_page_without_a_nickname() {
    let mut state = state();
    state.nickname = String::new();
    let mut page = Landing::default();
    page.handle_events(&mut state, Key::Char('x'));
    assert!(page.handle_events(&mut state, Key::Esc));
    assert_eq!(state.nickname, "");
    assert_eq!(page.input(), "x");
}

#[test]
fn backspace_on_an_empty_input_does_nothing() {
    let mut state = state();
    let mut page = Chat::new();
    assert_eq!(page.handle_events(&mut state, Key::Backspace), None);
    assert_eq!(page.input(), "");
}

#[test]
fn the_chat_sends_what_was_typed_to_the_open_room() {
    let mut state = state();
    let mut page = Chat::new();
    assert_eq!(page.handle_events(&mut state, Key::Enter), None);
    assert_eq!(state.messages.len(), 0);
    type_text("hello", |k| assert_eq!(page.handle_events(&mut state, k), None));
    let command = page.handle_events(&mut state, Key::Enter);
    assert_eq!(
        command,
        Some(Command::SendMessage { message: "hello".to_string(), room: "Global".to_string() })
    );
    assert_eq!(page.input(), "");
    assert_eq!(
        state.messages.get("Global"),
        Some(&vec!["✨ Welcome to the Global chat!".to_string(), "You: hello".to_string()])
    );
}

#[test]
fn showing_a_room_clears_its_mark_and_seeds_its_history() {
    let mut state = state();
    state.set_notification("Global", true);
    state.set_notification("COSC473", true);
    let page = Chat::new();
    let (room, nickname) = page.room_setup(&mut state);
    assert_eq!(room, "Global");
    assert_eq!(nickname, "Alice");
    assert_eq!(state.notifications.get("Global"), Some(&false));
    assert_eq!(state.notifications.get("COSC473"), Some(&true));
    assert_eq!(page.format_messages(&state, "Global"), "✨ Welcome to the Global chat!");
    state.append_line("Global", "Bob: hi".to_string());
    state.append_line("Global", "You: ho".to_string());
    page.room_setup(&mut state);
    assert_eq!(
        page.format_messages(&state, "Global"),
        "✨ Welcome to the Global chat!\nBob: hi\nYou: ho"
    );
    assert_eq!(page.format_messages(&state, "Nowhere"), "");
}

#[test]
fn the_rating_page_rates_the_sender_of_the_file() {
    for (key, rating) in [('1', Some(-1)), ('2', None), ('3', Some(1))] {
        let mut state = state();
        state.current_rating = Some("P_B".to_string());
        state.set_nickname("P_B", "Bob".to_string());
        let mut page = Rating::new();
        assert_eq!(
            page.prompt(&state),
            Some(
                "\n\nYou have just received a file! \nGive Bob a rating for this trade: \n\n1: Bad  2: Neutral  3: Good"
                    .to_string()
            )
        );
        assert_eq!(page.handle_events(&mut state, Key::Char('4')), (None, None));
        assert_eq!(page.handle_events(&mut state, Key::Enter), (None, None));
        assert_eq!(state.current_rating, Some("P_B".to_string()));
        let (command, tab) = page.handle_events(&mut state, Key::Char(key));
        assert_eq!(
            command,
            rating.map(|rating| Command::UpdateRating { peer: "P_B".to_string(), rating })
        );
        assert_eq!(tab, Some(Tab::Chat));
        assert_eq!(state.current_rating, None);
        assert_eq!(page.prompt(&state), None);
    }
}

#[test]
fn the_rating_page_without_a_peer_only_leads_back() {
    let mut state = state();
    let mut page = Rating::default();
    assert_eq!(page.handle_events(&mut state, Key::Char('3')), (None, Some(Tab::Chat)));
}

#[test]
fn the_menu_opens_the_selected_room() {
    let mut state = state();
    let mut page = RoomMenu::new();
    assert_eq!(page.room_list_state().selected(), Some(0));
    assert_eq!(page.selected_section(), MenuSection::Room);
    page.handle_events(&mut state, Key::Down);
    page.handle_events(&mut state, Key::Down);
    page.handle_events(&mut state, Key::Up);
    assert_eq!(page.handle_events(&mut state, Key::Enter), (None, Some(Tab::Chat)));
    assert_eq!(state.current_room, "COSC473");
}

#[test]
fn the_menu_opens_the_channel_with_the_selected_peer() {
    let mut state = state();
    state.peers = vec!["P_B".to_string(), "P_0".to_string()];
    let mut page = RoomMenu::default();
    page.handle_events(&mut state, Key::Right);
    assert_eq!(page.selected_section(), MenuSection::User);
    assert_eq!(page.room_list_state().selected(), None);
    assert_eq!(page.user_list_state().selected(), Some(0));
    assert_eq!(page.handle_events(&mut state, Key::Enter), (None, Some(Tab::Chat)));
    assert_eq!(state.current_room, "P_B_P_A");
    page.handle_events(&mut state, Key::Down);
    page.handle_events(&mut state, Key::Enter);
    assert_eq!(state.current_room, "P_A_P_0");
    page.handle_events(&mut state, Key::Left);
    assert_eq!(page.selected_section(), MenuSection::Room);
    assert_eq!(page.user_list_state().selected(), None);
    assert_eq!(page.room_list_state().selected(), Some(0));
}

#[test]
fn a_selection_beyond_the_list_opens_nothing() {
    let mut state = state();
    let mut page = RoomMenu::new();
    for _ in 0..5 {
        page.handle_events(&mut state, Key::Down);
    }
    assert_eq!(page.room_list_state().selected(), Some(5));
    assert_eq!(page.handle_events(&mut state, Key::Enter), (None, None));
    assert_eq!(state.current_room, "Global");
    page.handle_events(&mut state, Key::Right);
    assert_eq!(page.handle_events(&mut state, Key::Enter), (None, None));
}

#[test]
fn the_menu_creates_a_room_that_is_new() {
    let mut state = state();
    let mut page = RoomMenu::new();
    assert_eq!(page.handle_events(&mut state, Key::BackTab), (None, None));
    type_text("Global", |k| {
        page.handle_events(&mut state, k);
    });
    assert_eq!(page.handle_events(&mut state, Key::BackTab), (None, None));
    assert_eq!(page.input(), "Global");
    type_text("2x", |k| {
        page.handle_events(&mut state, k);
    });
    page.handle_events(&mut state, Key::Backspace);
    assert_eq!(
        page.handle_events(&mut state, Key::BackTab),
        (Some(Command::CreateRoom { name: "Global2".to_string() }), None)
    );
    assert_eq!(page.input(), "");
}

#[test]
fn the_menu_marks_what_holds_something_unseen() {
    let mut state = state();
    state.peers = vec!["P_B".to_string(), "P_C".to_string(), "P_D".to_string()];
    state.set_nickname("P_B", "Bob".to_string());
    state.set_nickname("P_D", "Dora".to_string());
    state.set_notification("COSC473", true);
    state.set_notification("COSC478", false);
    state.set_notification("P_D_P_A", true);
    let page = RoomMenu::new();
    assert_eq!(
        page.format_rooms(&state),
        vec!["Global", "COSC473 - New Messages", "COSC478", "SENG406", "SENG402"]
    );
    assert_eq!(page.format_peers(&state), vec!["Bob", "Dora - New Messages"]);
    assert!(unseen(&state, "COSC473"));
    assert!(!unseen(&state, "COSC478"));
    assert!(!unseen(&state, "Global"));
    assert_eq!(format_title("Bob", true), "Bob - New Messages");
    assert_eq!(format_title("Bob", false), "Bob");
}

#[test]
fn a_file_is_requested_in_two_steps() {
    let mut state = state();
    state.peers = vec!["P_B".to_string(), "P_C".to_string()];
    let mut page = Direct::new();
    assert_eq!(page.handle_events(&mut state, Key::Enter), None);
    page.handle_events(&mut state, Key::Left);
    assert_eq!(page.selected_section(), DirectSection::Request);
    page.handle_events(&mut state, Key::Down);
    assert_eq!(page.peer_list_state().selected(), Some(1));
    assert_eq!(page.handle_events(&mut state, Key::Enter), None);
    assert_eq!(page.popup(), DirectSection::Request);
    // the lists do not move while the box is open
    page.handle_events(&mut state, Key::Up);
    page.handle_events(&mut state, Key::Right);
    assert_eq!(page.peer_list_state().selected(), Some(1));
    assert_eq!(page.selected_section(), DirectSection::Request);
    type_text("send notes please", |k| {
        page.handle_events(&mut state, k);
    });
    assert_eq!(
        page.handle_events(&mut state, Key::Enter),
        Some(Command::RequestFile {
            message: "send notes please".to_string(),
            peer: "P_C".to_string()
        })
    );
    assert_eq!(page.popup(), DirectSection::Neither);
    assert_eq!(page.input(), "");
}

#[test]
fn a_request_is_answered_once() {
    let mut state = state();
    state.requests = vec![
        ("P_B".to_string(), "notes?".to_string(), 11),
        ("P_C".to_string(), "slides?".to_string(), 12),
    ];
    state.set_nickname("P_B", "Bob".to_string());
    let mut page = Direct::default();
    assert_eq!(page.format_requests(&state), vec!["Bob - notes?", "P_C - slides?"]);
    page.handle_events(&mut state, Key::Right);
    page.handle_events(&mut state, Key::Down);
    assert_eq!(page.request_list_state().selected(), Some(1));
    assert_eq!(page.handle_events(&mut state, Key::Enter), None);
    assert_eq!(page.popup(), DirectSection::Response);
    type_text("/tmp/slides.pdf", |k| {
        page.handle_events(&mut state, k);
    });
    assert_eq!(
        page.handle_events(&mut state, Key::Enter),
        Some(Command::RespondFile {
            filename: "swapbytes.txt".to_string(),
            filepath: "/tmp/slides.pdf".to_string(),
            channel: 12
        })
    );
    assert_eq!(state.requests, vec![("P_B".to_string(), "notes?".to_string(), 11)]);
    // the selection now lies beyond the list: the box opens, but nothing is answered
    assert_eq!(page.handle_events(&mut state, Key::Enter), None);
    assert_eq!(page.popup(), DirectSection::Response);
    assert_eq!(page.handle_events(&mut state, Key::Enter), None);
    assert_eq!(state.requests.len(), 1);
}

#[test]
fn without_peers_or_requests_enter_does_nothing() {
    let mut state = state();
    let mut page = Direct::new();
    page.handle_events(&mut state, Key::Left);
    assert_eq!(page.handle_events(&mut state, Key::Enter), None);
    assert_eq!(page.popup(), DirectSection::Neither);
    page.handle_events(&mut state, Key::Right);
    assert_eq!(page.handle_events(&mut state, Key::Enter), None);
    assert_eq!(page.popup(), DirectSection::Neither);
}

#[test]
fn the_direct_page_lists_the_peers_with_a_nickname() {
    let mut state = state();
    state.peers = vec!["P_B".to_string(), "P_C".to_string(), "P_D".to_string()];
    state.set_nickname("P_D", "Dora".to_string());
    state.set_nickname("P_B", "Bob".to_string());
    let page = Direct::new();
    assert_eq!(page.format_peers(&state), vec!["Bob", "Dora"]);
}

#[test]
fn the_router_cycles_the_tabs_and_quits_on_escape() {
    let mut state = state();
    let mut router = Router::new();
    assert_eq!(router.tab(), Tab::Chat);
    assert_eq!(router.handle_events(&mut state, None), (false, vec![]));
    assert_eq!(router.handle_events(&mut state, Some(Key::Tab)), (false, vec![]));
    assert_eq!(router.tab(), Tab::RoomMenu);
    assert_eq!(
        router.handle_events(&mut state, Some(Key::Tab)),
        (false, vec![Command::FetchRooms {}])
    );
    assert_eq!(router.tab(), Tab::Direct);
    router.handle_events(&mut state, Some(Key::Tab));
    assert_eq!(router.tab(), Tab::Chat);
    assert_eq!(router.handle_events(&mut state, Some(Key::Esc)), (true, vec![]));
}

#[test]
fn the_router_fetches_the_rooms_while_the_menu_is_shown() {
    let mut state = state();
    let mut router = Router::default();
    router.handle_events(&mut state, Some(Key::Tab));
    assert_eq!(router.handle_events(&mut state, None), (false, vec![Command::FetchRooms {}]));
    assert_eq!(
        router.handle_events(&mut state, Some(Key::Esc)),
        (true, vec![Command::FetchRooms {}])
    );
    type_text("New", |k| {
        router.handle_events(&mut state, Some(k));
    });
    assert_eq!(router.room_menu().input(), "New");
    assert_eq!(
        router.handle_events(&mut state, Some(Key::BackTab)),
        (false, vec![Command::FetchRooms {}, Command::CreateRoom { name: "New".to_string() }])
    );
}

#[test]
fn opening_a_room_shows_the_chat_and_clears_its_mark() {
    let mut state = state();
    state.set_notification("COSC473", true);
    state.set_notification("COSC478", true);
    let mut router = Router::new();
    router.handle_events(&mut state, Some(Key::Tab));
    router.handle_events(&mut state, Some(Key::Down));
    router.handle_events(&mut state, Some(Key::Enter));
    assert_eq!(router.tab(), Tab::Chat);
    assert_eq!(state.current_room, "COSC473");
    assert_eq!(state.notifications.get("COSC473"), Some(&true));
    router.handle_events(&mut state, None);
    assert_eq!(state.notifications.get("COSC473"), Some(&false));
    assert_eq!(state.notifications.get("COSC478"), Some(&true));
}

#[test]
fn a_peer_to_rate_brings_up_the_rating_page() {
    let mut state = state();
    let mut router = Router::new();
    state.current_rating = Some("P_B".to_string());
    // the key of this round still goes to the chat
    router.handle_events(&mut state, Some(Key::Char('3')));
    assert_eq!(router.tab(), Tab::Rating);
    assert_eq!(router.global().input(), "3");
    let (quit, commands) = router.handle_events(&mut state, Some(Key::Char('3')));
    assert!(!quit);
    assert_eq!(commands, vec![Command::UpdateRating { peer: "P_B".to_string(), rating: 1 }]);
    assert_eq!(router.tab(), Tab::Chat);
    assert_eq!(state.current_rating, None);
}

#[test]
fn the_router_sends_the_keys_to_the_page_that_is_shown() {
    let mut state = state();
    state.peers = vec!["P_B".to_string()];
    let mut router = Router::new();
    type_text("hi", |k| {
        router.handle_events(&mut state, Some(k));
    });
    assert_eq!(
        router.handle_events(&mut state, Some(Key::Enter)),
        (
            false,
            vec![Command::SendMessage { message: "hi".to_string(), room: "Global".to_string() }]
        )
    );
    router.handle_events(&mut state, Some(Key::Tab));
    router.handle_events(&mut state, Some(Key::Tab));
    assert_eq!(router.tab(), Tab::Direct);
    router.handle_events(&mut state, Some(Key::Left));
    router.handle_events(&mut state, Some(Key::Enter));
    router.handle_events(&mut state, Some(Key::Char('?')));
    assert_eq!(router.direct().input(), "?");
    assert_eq!(
        router.handle_events(&mut state, Some(Key::Enter)),
        (false, vec![Command::RequestFile { message: "?".to_string(), peer: "P_B".to_string() }])
    );
}

#[test]
fn the_tab_titles_ring_for_what_is_unseen() {
    let mut state = state();
    let mut router = Router::new();
    assert_eq!(
        router.calculate_notifications(&state),
        ("Rooms".to_string(), "Direct Messages".to_string())
    );
    state.set_notification("Global", true);
    // the user looks at Global
    assert_eq!(router.calculate_notifications(&state).0, "Rooms");
    state.set_notification("COSC473", false);
    assert_eq!(router.calculate_notifications(&state).0, "Rooms");
    state.set_notification("COSC473", true);
    assert_eq!(router.calculate_notifications(&state).0, "Rooms 🔔");
    state.set_notification("COSC473", false);
    state.requests.push(("P_B".to_string(), "notes?".to_string(), 1));
    assert_eq!(
        router.calculate_notifications(&state),
        ("Rooms".to_string(), "Direct Messages 🔔".to_string())
    );
    // on another tab the open room rings too
    state.requests.clear();
    router.handle_events(&mut state, Some(Key::Tab));
    state.set_notification("Global", true);
    assert_eq!(
        router.calculate_notifications(&state),
        ("Rooms 🔔".to_string(), "Direct Messages".to_string())
    );
}

#[test]
fn a_selection_moves_as_the_list_state_of_the_terminal_does() {
    let starts = [None, Some(0), Some(1), Some(41), Some(usize::MAX - 1), Some(usize::MAX)];
    // each step: 0 next, 1 previous, 2 first, 3 none
    let walks: [&[u8]; 8] = [
        &[0],
        &[1],
        &[2],
        &[3],
        &[0, 0, 1],
        &[1, 1, 0],
        &[3, 1, 0, 0],
        &[2, 1, 1, 0, 3, 0],
    ];
    for start in starts {
        for walk in walks {
            let mut mine = Selection::new();
            mine.select(start);
            let mut theirs = ListState::default();
            theirs.select(start);
            for step in walk {
                match step {
                    0 => {
                        mine.select_next();
                        theirs.select_next();
                    }
                    1 => {
                        mine.select_previous();
                        theirs.select_previous();
                    }
                    2 => {
                        mine.select_first();
                        theirs.select_first();
                    }
                    _ => {
                        mine.select(None);
                        theirs.select(None);
                    }
                }
                assert_eq!(mine.selected(), theirs.selected());
            }
        }
    }
}
