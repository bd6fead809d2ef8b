use crate::network::command::{command_view, Command, CommandView};
use crate::state::{grown, lemma_grown, GlobalState, StateView};
use crate::text::plain_line;
use crate::ui::components::{Key, Tab};
use crate::ui::page::chat::{chat_step, Chat};
use crate::ui::page::direct::{direct_step, first_direct, Direct, DirectView};
use crate::ui::page::rating::{rating_step, Rating};
use crate::ui::page::rooms_menu::{first_menu, menu_step, RoomMenu, RoomMenuView};
use crate::util::text_eq;
use vstd::prelude::*;

verus! {

/// The user interface: the tab that is shown and the pages behind the tabs.
pub struct Router {
    tab: Tab,
    room_menu: RoomMenu,
    global: Chat,
    direct: Direct,
    rating: Rating,
}

/// The user interface as mathematics sees it.
pub struct RouterView {
    pub tab: Tab,
    pub room_menu: RoomMenuView,
    pub global: Seq<char>,
    pub direct: DirectView,
}

impl View for Router {
    type V = RouterView;

    closed spec fn view(&self) -> RouterView {
        RouterView {
            tab: self.tab,
            room_menu: self.room_menu@,
            global: self.global@,
            direct: self.direct@,
        }
    }
}

/// The user interface as it first appears: the chat is shown and every page
/// is as it first appears.
pub open spec fn first_router() -> RouterView {
    RouterView {
        tab: Tab::Chat,
        room_menu: first_menu(),
        global: Seq::empty(),
        direct: first_direct(),
    }
}

/// The user interface, the state, whether the application ends, and the
/// commands for the network.
pub struct RouterStep<C> {
    pub router: RouterView,
    pub state: StateView<C>,
    pub quit: bool,
    pub commands: Seq<CommandView<C>>,
}

/// The state once a round of the interface has begun: while the chat is
/// shown, the open room holds nothing unseen.
pub open spec fn ticked<C>(tab: Tab, s: StateView<C>) -> StateView<C> {
    if tab == Tab::Chat {
        StateView { notifications: s.notifications.insert(s.current_room, false), ..s }
    } else {
        s
    }
}

/// What a round of the interface asks of the network before any key: while
/// the list of rooms is shown, the rooms are fetched.
pub open spec fn fetches<C>(tab: Tab) -> Seq<CommandView<C>> {
    if tab == Tab::RoomMenu {
        seq![CommandView::FetchRooms {  }]
    } else {
        Seq::empty()
    }
}

/// The tab that is shown: the rating page as long as a peer is to be rated.
pub open spec fn shown_tab<C>(tab: Tab, s: StateView<C>) -> Tab {
    if s.current_rating is Some {
        Tab::Rating
    } else {
        tab
    }
}

/// The tab after a page asked for a switch, or did not.
pub open spec fn switched(tab: Tab, to: Option<Tab>) -> Tab {
    match to {
        Some(t) => t,
        None => tab,
    }
}

/// A command that may be missing, as a list.
pub open spec fn if_some<C>(command: Option<CommandView<C>>) -> Seq<CommandView<C>> {
    match command {
        Some(c) => seq![c],
        None => Seq::empty(),
    }
}

/// What a round of the interface does, with the key that was pressed in it,
/// if one was. The round begins as `ticked`, `fetches` and `shown_tab` say.
/// Escape ends the application, the tab key shows the next tab, and every
/// other key goes to the page of the tab that was shown when the round
/// began.
pub open spec fn router_step<C>(router: RouterView, s: StateView<C>, key: Option<Key>) -> RouterStep<
    C,
> {
    let entry = router.tab;
    let begun = RouterStep {
        router: RouterView { tab: shown_tab(entry, s), ..router },
        state: ticked(entry, s),
        quit: false,
        commands: fetches(entry),
    };
    match key {
        None => begun,
        Some(Key::Esc) => RouterStep { quit: true, ..begun },
        Some(Key::Tab) => RouterStep {
            router: RouterView { tab: begun.router.tab.following(), ..begun.router },
            ..begun
        },
        Some(k) => match entry {
            Tab::Chat => {
                let (input, state, command) = chat_step(router.global, begun.state, k);
                RouterStep {
                    router: RouterView { global: input, ..begun.router },
                    state,
                    commands: begun.commands + if_some(command),
                    ..begun
                }
            },
            Tab::RoomMenu => {
                let step = menu_step(router.room_menu, begun.state, k);
                RouterStep {
                    router: RouterView {
                        room_menu: step.page,
                        tab: switched(begun.router.tab, step.tab),
                        ..begun.router
                    },
                    state: step.state,
                    commands: begun.commands + if_some(step.command),
                    ..begun
                }
            },
            Tab::Direct => {
                let step = direct_step(router.direct, begun.state, k);
                RouterStep {
                    router: RouterView { direct: step.page, ..begun.router },
                    state: step.state,
                    commands: begun.commands + if_some(step.command),
                    ..begun
                }
            },
            Tab::Rating => {
                let (state, command, tab) = rating_step(begun.state, k);
                RouterStep {
                    router: RouterView { tab: switched(begun.router.tab, tab), ..begun.router },
                    state,
                    commands: begun.commands + if_some(command),
                    ..begun
                }
            },
        },
    }
}

/// A round of the interface marks nothing as unseen, and what it marks as
/// seen is the open room, while the chat is shown: the mark of every other
/// topic stays as it was, whatever the key.
pub proof fn lemma_round_clears_only_the_open_room<C>(
    router: RouterView,
    s: StateView<C>,
    key: Option<Key>,
)
    ensures
        router_step(router, s, key).state.notifications == ticked(router.tab, s).notifications,
        router.tab == Tab::Chat ==> router_step(router, s, key).state.notifications[s.current_room]
            == false,
        forall|other: Seq<char>|
            other != s.current_room ==> (router_step(
                router,
                s,
                key,
            ).state.notifications.contains_key(other) == s.notifications.contains_key(other)
                && router_step(router, s, key).state.notifications[other]
                == s.notifications[other]),
{
}

/// No round of the interface takes a line out of a history or a history out
/// of the state.
pub proof fn lemma_round_only_grows_histories<C>(
    router: RouterView,
    s: StateView<C>,
    key: Option<Key>,
)
    ensures
        grown(s.messages, router_step(router, s, key).state.messages),
{
    lemma_grown(
        s.messages,
        s.current_room,
        plain_line("You"@, router.global),
    );
}

/// Whether a topic other than the one that the user looks at holds
/// something unseen. The user looks at the open room while the chat is
/// shown.
pub open spec fn rooms_alert<C>(tab: Tab, s: StateView<C>) -> bool {
    exists|topic: Seq<char>|
        #![trigger s.notifications.contains_key(topic)]
        s.notifications.contains_key(topic) && s.notifications[topic] && (topic != s.current_room
            || tab != Tab::Chat)
}

/// The title of the tab of rooms.
pub open spec fn rooms_title(alert: bool) -> Seq<char> {
    if alert {
        "Rooms 🔔"@
    } else {
        "Rooms"@
    }
}

/// The title of the tab of direct messages.
pub open spec fn direct_title(alert: bool) -> Seq<char> {
    if alert {
        "Direct Messages 🔔"@
    } else {
        "Direct Messages"@
    }
}

/// Adds a command that may be missing at the end of a list of commands.
fn add_command<C>(commands: &mut Vec<Command<C>>, command: Option<Command<C>>)
    ensures
        final(commands).deep_view() == old(commands).deep_view() + if_some(
            command_view(command),
        ),
{
    match command {
        Some(c) => {
            commands.push(c);
        },
        None => {
            assert(commands.deep_view() =~= old(commands).deep_view() + Seq::<
                CommandView<C>,
            >::empty());
        },
    }
}

impl Router {
    /// The user interface as it first appears.
    pub fn new() -> (router: Self)
        ensures
            router@ == first_router(),
    {
        Router {
            tab: Tab::Chat,
            room_menu: RoomMenu::new(),
            global: Chat::new(),
            direct: Direct::new(),
            rating: Rating::new(),
        }
    }

    /// The tab that is shown.
    pub fn tab(&self) -> (tab: Tab)
        ensures
            tab == self@.tab,
    {
        self.tab
    }

    /// The page of the list of rooms.
    pub fn room_menu(&self) -> (page: &RoomMenu)
        ensures
            page@ == self@.room_menu,
    {
        &self.room_menu
    }

    /// The page of the chat.
    pub fn global(&self) -> (page: &Chat)
        ensures
            page@ == self@.global,
    {
        &self.global
    }

    /// The page of the file exchange.
    pub fn direct(&self) -> (page: &Direct)
        ensures
            page@ == self@.direct,
    {
        &self.direct
    }

    /// The page of the rating.
    pub fn rating(&self) -> &Rating {
        &self.rating
    }

    /// Runs one round of the interface, with the key that was pressed in
    /// it, if one was. Tells whether the application ends, and gives the
    /// commands for the network.
    pub fn handle_events<C>(&mut self, state: &mut GlobalState<C>, key: Option<Key>) -> (r: (
        bool,
        Vec<Command<C>>,
    ))
        requires
            old(state).wf(),
        ensures
            final(state).wf(),
            (RouterStep {
                router: final(self)@,
                state: final(state)@,
                quit: r.0,
                commands: r.1.deep_view(),
            }) == router_step(old(self)@, old(state)@, key),
    {
        let tab = self.tab;
        let mut commands: Vec<Command<C>> = Vec::new();
        assert(commands.deep_view() =~= Seq::<CommandView<C>>::empty());
        if tab == Tab::RoomMenu {
            add_command(&mut commands, Some(Command::FetchRooms {  }));
        }
        if tab == Tab::Chat {
            let room = state.current_room.clone();
            state.set_notification(room.as_str(), false);
        }
        if state.current_rating.is_some() {
            self.tab = Tab::Rating;
        }
        match key {
            None => {},
            Some(Key::Esc) => {
                return (true, commands);
            },
            Some(Key::Tab) => {
                self.tab = self.tab.next();
            },
            Some(k) => match tab {
                Tab::Chat => {
                    let command = self.global.handle_events(state, k);
                    add_command(&mut commands, command);
                },
                Tab::RoomMenu => {
                    let (command, to) = self.room_menu.handle_events(state, k);
                    add_command(&mut commands, command);
                    match to {
                        Some(t) => {
                            self.tab = t;
                        },
                        None => {},
                    }
                },
                Tab::Direct => {
                    let command = self.direct.handle_events(state, k);
                    add_command(&mut commands, command);
                },
                Tab::Rating => {
                    let (command, to) = self.rating.handle_events(state, k);
                    add_command(&mut commands, command);
                    match to {
                        Some(t) => {
                            self.tab = t;
                        },
                        None => {},
                    }
                },
            },
        }
        (false, commands)
    }

    /// The titles of the tabs of rooms and of direct messages: each with a
    /// bell where something waits that the user has not seen. For the rooms
    /// that is a topic other than the one the user looks at; for the direct
    /// messages it is a file request.
    pub fn calculate_notifications<C>(&self, state: &GlobalState<C>) -> (titles: (String, String))
        requires
            state.wf(),
        ensures
            titles.0@ == rooms_title(rooms_alert(self@.tab, state@)),
            titles.1@ == direct_title(state@.requests.len() > 0),
    {
        let direct = state.requests.len() > 0;
        let on_chat = self.tab == Tab::Chat;
        let mut alert = false;
        let n = state.notifications.len();
        proof {
            state.notifications.lemma_listing();
        }
        let mut i: usize = 0;
        while i < n
            invariant
                i <= n,
                n == state.notifications.keys().len(),
                n == state.notifications.values().len(),
                on_chat == (self@.tab == Tab::Chat),
                alert == exists|j: int|
                    0 <= j < i && #[trigger] state.notifications.values()[j] && (
                    state.notifications.keys()[j] != state@.current_room || !on_chat),
            decreases n - i,
        {
            let topic = state.notifications.key_at(i);
            let flag = *state.notifications.value_at(i);
            if flag && (!on_chat || !text_eq(topic.as_str(), state.current_room.as_str())) {
                alert = true;
            }
            i += 1;
        }
        proof {
            let keys = state.notifications.keys();
            let values = state.notifications.values();
            if alert {
                let j = choose|j: int|
                    0 <= j < n && #[trigger] values[j] && (keys[j] != state@.current_room
                        || !on_chat);
                assert(state@.notifications.contains_key(keys[j]));
            }
            if rooms_alert(self@.tab, state@) {
                let topic = choose|topic: Seq<char>|
                    #![trigger state@.notifications.contains_key(topic)]
                    state@.notifications.contains_key(topic) && state@.notifications[topic] && (
                    topic != state@.current_room || self@.tab != Tab::Chat);
                assert(keys.contains(topic));
                let j = choose|j: int| 0 <= j < keys.len() && keys[j] == topic;
                assert(values[j]);
            }
        }
        let rooms = if alert {
            String::from_str("Rooms 🔔")
        } else {
            String::from_str("Rooms")
        };
        let directs = if direct {
            String::from_str("Direct Messages 🔔")
        } else {
            String::from_str("Direct Messages")
        };
        (rooms, directs)
    }
}

impl Default for Router {
    fn default() -> (router: Self)
        ensures
            router@ == first_router(),
    {
        Router::new()
    }
}

} // verus!
