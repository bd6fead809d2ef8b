use crate::network::command::{command_view, Command, CommandView};
use crate::state::{GlobalState, StateView};
use crate::text::{list_contains, pop_char, push_char, push_text, without_last};
use crate::ui::components::{next_place, previous_place, Key, Selection, Tab};
use crate::util::{dm_key, format_dm_key};
use vstd::prelude::*;

verus! {

/// The list that the keys act on.
#[derive(Debug, Clone, Copy, PartialEq, Eq, Structural)]
pub enum Section {
    Room,
    User,
}

/// The page that lists the rooms and the peers: the user opens a room or a
/// direct-message channel, or creates a room.
pub struct RoomMenu {
    input: String,
    room_list_state: Selection,
    user_list_state: Selection,
    selected_section: Section,
}

/// The page as mathematics sees it.
pub struct RoomMenuView {
    pub input: Seq<char>,
    pub room_list_state: Option<usize>,
    pub user_list_state: Option<usize>,
    pub selected_section: Section,
}

impl View for RoomMenu {
    type V = RoomMenuView;

    closed spec fn view(&self) -> RoomMenuView {
        RoomMenuView {
            input: self.input@,
            room_list_state: self.room_list_state.selected,
            user_list_state: self.user_list_state.selected,
            selected_section: self.selected_section,
        }
    }
}

/// The page as it first appears: nothing typed, the list of rooms in use
/// and its first room selected.
pub open spec fn first_menu() -> RoomMenuView {
    RoomMenuView {
        input: Seq::empty(),
        room_list_state: Some(0usize),
        user_list_state: None,
        selected_section: Section::Room,
    }
}

/// The topic that the selection stands for: the selected room, or the
/// direct-message topic with the selected peer. None where nothing in the
/// list is selected.
pub open spec fn chosen_topic<C>(page: RoomMenuView, s: StateView<C>) -> Option<Seq<char>> {
    match page.selected_section {
        Section::Room => match page.room_list_state {
            Some(i) => if i < s.rooms.len() {
                Some(s.rooms[i as int])
            } else {
                None
            },
            None => None,
        },
        Section::User => match page.user_list_state {
            Some(i) => if i < s.peers.len() {
                Some(dm_key(s.peers[i as int], s.peer_id))
            } else {
                None
            },
            None => None,
        },
    }
}

/// Whether the input names a room that can be created: it is not empty and
/// no room of the list has the name.
pub open spec fn can_create<C>(page: RoomMenuView, s: StateView<C>) -> bool {
    page.input.len() > 0 && !s.rooms.contains(page.input)
}

/// The page, the state, the command for the network and the tab to switch
/// to.
pub struct MenuStep<C> {
    pub page: RoomMenuView,
    pub state: StateView<C>,
    pub command: Option<CommandView<C>>,
    pub tab: Option<Tab>,
}

/// What a key does on the page. Up and down move the selection of the
/// list in use; left and right choose the list of rooms or of peers and
/// select its first item. A character joins the input and backspace takes
/// the last one away. Enter opens what is selected and shows the chat.
/// The back tab creates the room that the input names, if it can be
/// created, and empties the input.
pub open spec fn menu_step<C>(page: RoomMenuView, s: StateView<C>, key: Key) -> MenuStep<C> {
    let same = MenuStep { page, state: s, command: None, tab: None };
    match key {
        Key::Up => match page.selected_section {
            Section::Room => MenuStep {
                page: RoomMenuView {
                    room_list_state: previous_place(page.room_list_state),
                    ..page
                },
                ..same
            },
            Section::User => MenuStep {
                page: RoomMenuView {
                    user_list_state: previous_place(page.user_list_state),
                    ..page
                },
                ..same
            },
        },
        Key::Down => match page.selected_section {
            Section::Room => MenuStep {
                page: RoomMenuView { room_list_state: next_place(page.room_list_state), ..page },
                ..same
            },
            Section::User => MenuStep {
                page: RoomMenuView { user_list_state: next_place(page.user_list_state), ..page },
                ..same
            },
        },
        Key::Backspace => MenuStep {
            page: RoomMenuView { input: without_last(page.input), ..page },
            ..same
        },
        Key::Char(c) => MenuStep {
            page: RoomMenuView { input: page.input.push(c), ..page },
            ..same
        },
        Key::Enter => match chosen_topic(page, s) {
            Some(topic) => MenuStep {
                state: StateView { current_room: topic, ..s },
                tab: Some(Tab::Chat),
                ..same
            },
            None => same,
        },
        Key::BackTab => if can_create(page, s) {
            MenuStep {
                page: RoomMenuView { input: Seq::empty(), ..page },
                command: Some(CommandView::CreateRoom { name: page.input }),
                ..same
            }
        } else {
            same
        },
        Key::Left => MenuStep {
            page: RoomMenuView {
                selected_section: Section::Room,
                user_list_state: None,
                room_list_state: Some(0usize),
                ..page
            },
            ..same
        },
        Key::Right => MenuStep {
            page: RoomMenuView {
                selected_section: Section::User,
                room_list_state: None,
                user_list_state: Some(0usize),
                ..page
            },
            ..same
        },
        _ => same,
    }
}

/// Whether a topic holds something that the user has not seen.
pub open spec fn has_unseen<C>(s: StateView<C>, topic: Seq<char>) -> bool {
    s.notifications.contains_key(topic) && s.notifications[topic]
}

/// A name as the list shows it: marked where there is something unseen.
pub open spec fn titled(name: Seq<char>, unseen: bool) -> Seq<char> {
    if unseen {
        name + " - New Messages"@
    } else {
        name
    }
}

/// The rooms as the list shows them.
pub open spec fn room_titles<C>(s: StateView<C>) -> Seq<Seq<char>> {
    Seq::new(s.rooms.len(), |i: int| titled(s.rooms[i], has_unseen(s, s.rooms[i])))
}

/// The first `n` known peers as the list shows them: those whose nickname
/// is known, by that nickname, marked where their direct-message channel
/// holds something unseen.
pub open spec fn peer_titles<C>(s: StateView<C>, n: int) -> Seq<Seq<char>>
    decreases n,
{
    if n <= 0 {
        Seq::empty()
    } else {
        let peer = s.peers[n - 1];
        if s.nicknames.contains_key(peer) {
            peer_titles(s, n - 1).push(
                titled(s.nicknames[peer], has_unseen(s, dm_key(peer, s.peer_id))),
            )
        } else {
            peer_titles(s, n - 1)
        }
    }
}

/// Builds a name as the list shows it.
pub fn format_title(name: &str, unseen: bool) -> (title: String)
    ensures
        title@ == titled(name@, unseen),
{
    let mut title = String::from_str(name);
    if unseen {
        title.append(" - New Messages");
    }
    title
}

/// Whether a topic holds something that the user has not seen.
pub fn unseen<C>(state: &GlobalState<C>, topic: &str) -> (b: bool)
    requires
        state.wf(),
    ensures
        b == has_unseen(state@, topic@),
{
    match state.notifications.get(topic) {
        Some(flag) => *flag,
        None => false,
    }
}

impl RoomMenu {
    /// The page as it first appears.
    pub fn new() -> (page: Self)
        ensures
            page@ == first_menu(),
    {
        let mut page = RoomMenu {
            input: String::new(),
            room_list_state: Selection::new(),
            user_list_state: Selection::new(),
            selected_section: Section::Room,
        };
        page.room_list_state.select_first();
        page
    }

    /// What the user has typed so far.
    pub fn input(&self) -> (text: &String)
        ensures
            text@ == self@.input,
    {
        &self.input
    }

    /// The selection in the list of rooms.
    pub fn room_list_state(&self) -> (selection: Selection)
        ensures
            selection.selected == self@.room_list_state,
    {
        self.room_list_state
    }

    /// The selection in the list of peers.
    pub fn user_list_state(&self) -> (selection: Selection)
        ensures
            selection.selected == self@.user_list_state,
    {
        self.user_list_state
    }

    /// The list that the keys act on.
    pub fn selected_section(&self) -> (section: Section)
        ensures
            section == self@.selected_section,
    {
        self.selected_section
    }

    fn chosen<C>(&self, state: &GlobalState<C>) -> (topic: Option<String>)
        ensures
            match topic {
                Some(t) => chosen_topic(self@, state@) == Some(t@),
                None => chosen_topic(self@, state@) is None,
            },
    {
        match self.selected_section {
            Section::Room => match self.room_list_state.selected() {
                Some(i) => if i < state.rooms.len() {
                    Some(state.rooms[i].clone())
                } else {
                    None
                },
                None => None,
            },
            Section::User => match self.user_list_state.selected() {
                Some(i) => if i < state.peers.len() {
                    Some(format_dm_key(state.peers[i].clone(), state.peer_id.clone()))
                } else {
                    None
                },
                None => None,
            },
        }
    }

    /// Handles a key; gives the command for the network and the tab to
    /// switch to, if the key asks for them.
    pub fn handle_events<C>(&mut self, state: &mut GlobalState<C>, key: Key) -> (r: (
        Option<Command<C>>,
        Option<Tab>,
    ))
        requires
            old(state).wf(),
        ensures
            final(state).wf(),
            (MenuStep {
                page: final(self)@,
                state: final(state)@,
                command: command_view(r.0),
                tab: r.1,
            }) == menu_step(old(self)@, old(state)@, key),
    {
        match key {
            Key::Up => {
                match self.selected_section {
                    Section::Room => self.room_list_state.select_previous(),
                    Section::User => self.user_list_state.select_previous(),
                }
                (None, None)
            },
            Key::Down => {
                match self.selected_section {
                    Section::Room => self.room_list_state.select_next(),
                    Section::User => self.user_list_state.select_next(),
                }
                (None, None)
            },
            Key::Backspace => {
                pop_char(&mut self.input);
                (None, None)
            },
            Key::Char(c) => {
                push_char(&mut self.input, c);
                (None, None)
            },
            Key::Enter => {
                match self.chosen(state) {
                    Some(topic) => {
                        state.current_room = topic;
                        (None, Some(Tab::Chat))
                    },
                    None => (None, None),
                }
            },
            Key::BackTab => {
                if !self.input.as_str().is_empty() && !list_contains(
                    &state.rooms,
                    self.input.as_str(),
                ) {
                    let name = self.input.clone();
                    self.input = String::new();
                    (Some(Command::CreateRoom { name }), None)
                } else {
                    (None, None)
                }
            },
            Key::Left => {
                self.selected_section = Section::Room;
                self.user_list_state.select(None);
                self.room_list_state.select_first();
                (None, None)
            },
            Key::Right => {
                self.selected_section = Section::User;
                self.room_list_state.select(None);
                self.user_list_state.select_first();
                (None, None)
            },
            _ => (None, None),
        }
    }

    /// The rooms as the list shows them.
    pub fn format_rooms<C>(&self, state: &GlobalState<C>) -> (titles: Vec<String>)
        requires
            state.wf(),
        ensures
            titles.deep_view() == room_titles(state@),
    {
        let mut titles: Vec<String> = Vec::new();
        let mut i: usize = 0;
        while i < state.rooms.len()
            invariant
                state.wf(),
                i <= state.rooms@.len(),
                titles@.len() == i,
                forall|j: int| 0 <= j < i ==> titles@[j]@ == room_titles(state@)[j],
            decreases state.rooms@.len() - i,
        {
            let room = state.rooms[i].as_str();
            titles.push(format_title(room, unseen(state, room)));
            i += 1;
        }
        titles
    }

    /// The peers as the list shows them.
    pub fn format_peers<C>(&self, state: &GlobalState<C>) -> (titles: Vec<String>)
        requires
            state.wf(),
        ensures
            titles.deep_view() == peer_titles(state@, state@.peers.len() as int),
    {
        let mut titles: Vec<String> = Vec::new();
        let mut i: usize = 0;
        while i < state.peers.len()
            invariant
                state.wf(),
                i <= state.peers@.len(),
                titles.deep_view() == peer_titles(state@, i as int),
            decreases state.peers@.len() - i,
        {
            let peer = state.peers[i].as_str();
            match state.nicknames.get(peer) {
                Some(nickname) => {
                    let topic = format_dm_key(state.peers[i].clone(), state.peer_id.clone());
                    push_text(
                        &mut titles,
                        format_title(nickname.as_str(), unseen(state, topic.as_str())),
                    );
                },
                None => {},
            }
            i += 1;
        }
        titles
    }
}

impl Default for RoomMenu {
    fn default() -> (page: Self)
        ensures
            page@ == first_menu(),
    {
        RoomMenu::new()
    }
}

} // verus!
