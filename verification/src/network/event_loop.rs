use crate::network::action::{emit, no_actions, Action, ActionView};
use crate::network::behaviour::gossipsub;
use crate::network::behaviour::kademlia;
use crate::network::behaviour::mdns;
use crate::network::behaviour::rendezvous;
use crate::network::behaviour::request_response;
use crate::network::codec::{
    encode_number, encode_text, number_cbor, text_cbor, value_of, ValueView,
};
use crate::network::command::{
    bytes_view, create_room, create_room_put, fetch_rooms, payload, request_file, respond_file,
    send_message, update_rating, Command,
};
use crate::network::event::{Event, GossipsubEvent, KademliaEvent, MdnsEvent, QueryResult};
use crate::network::keys::{
    format_nickname_key, format_rating_key, format_rooms_key, nickname_key, rating_key, rooms_key,
};
use crate::network::network::{RequestView, ResponseView};
use crate::network::record::{plain_record, Quorum, Record};
use crate::network::pending::{
    lemma_registered_exclusive, lemma_without, PendingQueries, PendingView, PurposeView,
    RatingUpdateView,
};
use crate::network::rooms::{
    join_rooms, joined, lemma_joined_distinct, lemma_joined_grown, lemma_with_topic,
    merged_rooms, subscribe, subscribe_actions, with_topic, Joined,
};
use crate::state::{
    default_room_names, default_rooms, grown, lemma_grown, GlobalState, StateView,
};
use crate::text::{contains_text, join_line, list_contains, rated_line, text_contains};
use vstd::prelude::*;
use vstd::utf8::encode_utf8;

verus! {

/// The event loop: the lookups that wait for their result, the topics that
/// are subscribed, and whether the peer has set itself up. It decides what
/// each event and each command changes and asks for; the caller carries the
/// actions out.
pub struct EventLoop {
    pending: PendingQueries,
    subscribed: Vec<String>,
    ready: bool,
}

/// The event loop as mathematics sees it.
pub struct LoopView {
    pub pending: PendingView,
    pub subscribed: Seq<Seq<char>>,
    pub ready: bool,
}

impl LoopView {
    /// No token stands in two tables of waiting lookups, and no topic is
    /// subscribed twice.
    pub open spec fn wf(self) -> bool {
        self.pending.exclusive() && self.subscribed.no_duplicates()
    }
}

/// The state and the event loop after a step, and the actions it asks for.
pub struct Step<C> {
    pub state: StateView<C>,
    pub node: LoopView,
    pub actions: Seq<ActionView<C>>,
}

impl View for EventLoop {
    type V = LoopView;

    closed spec fn view(&self) -> LoopView {
        LoopView {
            pending: self.pending@,
            subscribed: self.subscribed.deep_view(),
            ready: self.ready,
        }
    }
}

/// An address on which the peer sets itself up: a UDP address of the local
/// host.
pub open spec fn is_local_address(address: Seq<char>) -> bool {
    text_contains(address, "/ip4/127.0.0.1/udp"@)
}

/// The records that a peer stores about itself when it sets itself up: its
/// nickname under its nickname key, and a rating of zero under its rating
/// key, each with a quorum of one. Each must be stored; one that cannot be
/// encoded is left out.
pub open spec fn own_records<C>(s: StateView<C>) -> Seq<ActionView<C>> {
    let nickname: Seq<ActionView<C>> = match text_cbor(s.nickname) {
        Some(bytes) => seq![
            ActionView::PutRecord {
                record: plain_record(nickname_key(s.peer_id), bytes),
                quorum: Quorum::One,
                required: true,
            },
        ],
        None => Seq::empty(),
    };
    let rating: Seq<ActionView<C>> = match number_cbor(0) {
        Some(bytes) => seq![
            ActionView::PutRecord {
                record: plain_record(rating_key(s.peer_id), bytes),
                quorum: Quorum::One,
                required: true,
            },
        ],
        None => Seq::empty(),
    };
    nickname + rating
}

/// The transport listens on a new address. The first such address that is
/// local sets the peer up: the address goes to the routing table of the
/// store under the peer's own identity, the peer stores its own records,
/// and it joins the default rooms. Any other address changes nothing.
pub open spec fn set_up<C>(s: StateView<C>, node: LoopView, address: Seq<char>) -> Step<C> {
    if !node.ready && is_local_address(address) {
        let first = seq![ActionView::AddAddress { peer: s.peer_id, address }] + own_records(s);
        let after = joined(
            Joined { messages: s.messages, subscribed: node.subscribed, actions: first },
            default_room_names(),
        );
        Step {
            state: StateView { messages: after.messages, ..s },
            node: LoopView { subscribed: after.subscribed, ready: true, ..node },
            actions: after.actions,
        }
    } else {
        Step { state: s, node, actions: Seq::empty() }
    }
}

/// What an action that may be missing asks for.
pub open spec fn if_any<C>(action: Option<ActionView<C>>) -> Seq<ActionView<C>> {
    match action {
        Some(a) => seq![a],
        None => Seq::empty(),
    }
}

/// What an event changes and asks for.
pub open spec fn event_step<C>(s: StateView<C>, node: LoopView, event: Event<C>) -> Step<C> {
    match event {
        Event::NewListenAddr { address } => set_up(s, node, address@),
        Event::Mdns(e) => {
            let (state, subscribed, actions) = mdns::step(s, node.subscribed, e);
            Step { state, node: LoopView { subscribed, ..node }, actions }
        },
        Event::Gossipsub(e) => {
            let (state, actions) = gossipsub::step(s, e);
            Step { state, node, actions }
        },
        Event::Kademlia(e) => {
            let after = kademlia::step(kademlia::at_rest(s, node.pending, node.subscribed), e);
            Step {
                state: after.state,
                node: LoopView { pending: after.pending, subscribed: after.subscribed, ..node },
                actions: after.actions,
            }
        },
        Event::RequestResponse(e) => {
            let (state, actions) = request_response::step(s, e);
            Step { state, node, actions }
        },
        Event::Rendezvous(e) => Step { state: s, node, actions: rendezvous::step(e) },
        Event::QueryIssued { id, purpose } => Step {
            state: s,
            node: LoopView { pending: node.pending.registered(id, purpose@), ..node },
            actions: Seq::empty(),
        },
        Event::StoredRooms { name, value } => Step {
            state: s,
            node,
            actions: if_any(create_room_put(name@, bytes_view(value))),
        },
        Event::FileRead { filename, contents, channel } => Step {
            state: s,
            node,
            actions: seq![
                ActionView::SendResponse {
                    channel,
                    response: ResponseView { filename: filename@, data: payload(contents) },
                },
            ],
        },
        Event::FileWritten { peer, saved } => Step {
            state: request_response::after_write(s, peer@, saved),
            node,
            actions: Seq::empty(),
        },
        Event::Other => Step { state: s, node, actions: Seq::empty() },
    }
}

/// What a command changes in the event loop and asks for. No command
/// touches the state of the application.
pub open spec fn command_step<C>(node: LoopView, command: Command<C>) -> (
    LoopView,
    Seq<ActionView<C>>,
) {
    match command {
        Command::SendMessage { message, room } => (
            node,
            seq![ActionView::Publish { topic: room@, data: encode_utf8(message@) }],
        ),
        Command::RequestFile { message, peer } => (
            node,
            seq![
                ActionView::SendRequest {
                    peer: peer@,
                    request: RequestView { message: message@ },
                },
            ],
        ),
        Command::RespondFile { filename, filepath, channel } => (
            node,
            seq![ActionView::ReadFile { filepath: filepath@, filename: filename@, channel }],
        ),
        Command::UpdateRating { peer, rating } => (
            node,
            seq![
                ActionView::GetRecord {
                    key: rating_key(peer@),
                    purpose: Some(
                        PurposeView::RatingUpdate(RatingUpdateView { peer: peer@, delta: rating }),
                    ),
                },
            ],
        ),
        Command::CreateRoom { name } => (
            node,
            seq![ActionView::ReadStoredRooms { key: rooms_key(), name: name@ }],
        ),
        Command::FetchRooms {  } => (
            node,
            seq![ActionView::GetRecord { key: rooms_key(), purpose: None }],
        ),
        Command::JoinRoom { room } => (
            LoopView { subscribed: with_topic(node.subscribed, room@), ..node },
            subscribe_actions(node.subscribed, room@),
        ),
        Command::StartListening { address } => (
            node,
            seq![ActionView::Listen { address: address@ }],
        ),
    }
}

/// The topic that an event marks as holding something unseen: that of a
/// message that came in.
pub open spec fn notified_topic<C>(event: Event<C>) -> Option<Seq<char>> {
    match event {
        Event::Gossipsub(GossipsubEvent::Message { topic, .. }) => Some(topic@),
        _ => None,
    }
}

/// A message that comes in marks its topic as holding something unseen and
/// leaves the mark of every other topic as it was. No other event changes
/// any mark.
pub proof fn lemma_only_messages_notify<C>(s: StateView<C>, node: LoopView, event: Event<C>)
    ensures
        event_step(s, node, event).state.notifications == match notified_topic(event) {
            Some(topic) => s.notifications.insert(topic, true),
            None => s.notifications,
        },
        forall|other: Seq<char>|
            notified_topic(event) != Some(other) ==> (event_step(
                s,
                node,
                event,
            ).state.notifications.contains_key(other) == s.notifications.contains_key(other)
                && event_step(s, node, event).state.notifications[other]
                == s.notifications[other]),
{
}

/// No event takes a line out of a history or a history out of the state:
/// each history that was there is still there afterwards, with the lines it
/// had at its beginning.
pub proof fn lemma_histories_only_grow<C>(s: StateView<C>, node: LoopView, event: Event<C>)
    ensures
        grown(s.messages, event_step(s, node, event).state.messages),
{
    lemma_grown(s.messages, Seq::empty(), Seq::empty());
    match event {
        Event::NewListenAddr { address } => {
            lemma_joined_grown(
                Joined {
                    messages: s.messages,
                    subscribed: node.subscribed,
                    actions: seq![ActionView::<C>::AddAddress { peer: s.peer_id, address: address@ }]
                        + own_records(s),
                },
                default_room_names(),
            );
        },
        Event::Kademlia(
            KademliaEvent::OutboundQueryProgressed { id, result: QueryResult::FoundRecord { value } },
        ) => {
            match value_of(value@) {
                Some(ValueView::Nickname(nickname)) => {
                    if node.pending.nickname_fetch.contains_key(id) {
                        match node.pending.nickname_fetch[id].dm_topic {
                            Some(topic) => {
                                lemma_grown(s.messages, topic, join_line(nickname));
                            },
                            None => {},
                        }
                    }
                },
                Some(ValueView::Rating(rating)) => {
                    if node.pending.rating_fetch.contains_key(id) {
                        let fetch = node.pending.rating_fetch[id];
                        lemma_grown(
                            s.messages,
                            fetch.topic,
                            rated_line(rating as int, fetch.nickname, fetch.message),
                        );
                    }
                },
                Some(ValueView::Rooms(rooms)) => {
                    lemma_joined_grown(
                        Joined {
                            messages: s.messages,
                            subscribed: node.subscribed,
                            actions: Seq::<ActionView<C>>::empty(),
                        },
                        merged_rooms(rooms),
                    );
                },
                None => {},
            }
        },
        _ => {},
    }
}

/// The value that a lookup found is what the table that holds the token
/// waits for: a nickname for the lookup of a nickname, a rating for either
/// lookup of a rating.
pub open spec fn answers(pending: PendingView, token: u64, value: Option<ValueView>) -> bool {
    match value {
        Some(ValueView::Nickname(_)) => pending.nickname_fetch.contains_key(token),
        Some(ValueView::Rating(_)) => pending.rating_fetch.contains_key(token)
            || pending.rating_update.contains_key(token),
        _ => false,
    }
}

/// The event by which the store reports that the lookup `token` found a
/// record with the bytes `value`.
pub open spec fn found<C>(token: u64, value: Vec<u8>) -> Event<C> {
    Event::Kademlia(
        KademliaEvent::OutboundQueryProgressed {
            id: token,
            result: QueryResult::FoundRecord { value },
        },
    )
}

/// Whatever the event, no token comes to stand in two tables of waiting
/// lookups.
pub proof fn lemma_tokens_stay_apart<C>(s: StateView<C>, node: LoopView, event: Event<C>)
    requires
        node.pending.exclusive(),
    ensures
        event_step(s, node, event).node.pending.exclusive(),
{
    match event {
        Event::Kademlia(
            KademliaEvent::OutboundQueryProgressed { id, result: QueryResult::FoundRecord { value } },
        ) => {
            lemma_without(node.pending, id);
        },
        Event::QueryIssued { id, purpose } => {
            lemma_registered_exclusive(node.pending, id, purpose@);
        },
        _ => {},
    }
}

/// Whatever the event, no topic comes to be subscribed twice.
pub proof fn lemma_subscriptions_stay_distinct<C>(s: StateView<C>, node: LoopView, event: Event<C>)
    requires
        node.subscribed.no_duplicates(),
    ensures
        event_step(s, node, event).node.subscribed.no_duplicates(),
{
    match event {
        Event::NewListenAddr { address } => {
            lemma_joined_distinct(
                Joined {
                    messages: s.messages,
                    subscribed: node.subscribed,
                    actions: seq![ActionView::<C>::AddAddress { peer: s.peer_id, address: address@ }]
                        + own_records(s),
                },
                default_room_names(),
            );
        },
        Event::Mdns(MdnsEvent::Discovered(list)) => {
            mdns::lemma_discovered_distinct(
                s.peer_id,
                mdns::Found::<C> {
                    peers: s.peers,
                    subscribed: node.subscribed,
                    actions: Seq::empty(),
                },
                list.deep_view(),
            );
        },
        Event::Kademlia(
            KademliaEvent::OutboundQueryProgressed { id, result: QueryResult::FoundRecord { value } },
        ) => {
            match value_of(value@) {
                Some(ValueView::Rooms(rooms)) => {
                    lemma_joined_distinct(
                        Joined {
                            messages: s.messages,
                            subscribed: node.subscribed,
                            actions: Seq::<ActionView<C>>::empty(),
                        },
                        merged_rooms(rooms),
                    );
                },
                _ => {},
            }
        },
        _ => {},
    }
}

/// Whatever the command, no topic comes to be subscribed twice.
pub proof fn lemma_commands_keep_subscriptions_distinct<C>(node: LoopView, command: Command<C>)
    requires
        node.subscribed.no_duplicates(),
    ensures
        command_step(node, command).0.subscribed.no_duplicates(),
        command_step(node, command).0.pending == node.pending,
{
    match command {
        Command::JoinRoom { room } => {
            lemma_with_topic(node.subscribed, room@);
        },
        _ => {},
    }
}

/// Once the store has answered a lookup with the value that it waits for,
/// its token stands in no table. A token stays in its table only where the
/// record that was found is not what the lookup waits for. Every other
/// token stands where it stood.
pub proof fn lemma_answer_clears_token<C>(
    s: StateView<C>,
    node: LoopView,
    token: u64,
    value: Vec<u8>,
)
    requires
        node.pending.exclusive(),
    ensures
        event_step(s, node, found::<C>(token, value)).node.pending.contains(token) == (
        node.pending.contains(token) && !answers(node.pending, token, value_of(value@))),
        forall|other: u64|
            other != token ==> event_step(s, node, found::<C>(token, value)).node.pending.count(
                other,
            ) == node.pending.count(other),
{
    lemma_without(node.pending, token);
}

impl EventLoop {
    /// No token stands in two tables of waiting lookups, and no topic is
    /// subscribed twice.
    pub open spec fn wf(&self) -> bool {
        self@.wf()
    }

    /// An event loop with no lookup waiting, no topic subscribed, and the
    /// peer not yet set up.
    pub fn new() -> (node: Self)
        ensures
            node.wf(),
            node@ == (LoopView {
                pending: PendingView {
                    nickname_fetch: Map::empty(),
                    rating_fetch: Map::empty(),
                    rating_update: Map::empty(),
                },
                subscribed: Seq::empty(),
                ready: false,
            }),
    {
        let node = EventLoop { pending: PendingQueries::new(), subscribed: Vec::new(), ready: false };
        assert(node.subscribed.deep_view() =~= Seq::empty());
        node
    }

    /// Whether a lookup under `token` waits for its result.
    pub fn is_pending(&self, token: u64) -> (b: bool)
        ensures
            b == self@.pending.contains(token),
    {
        self.pending.contains(token)
    }

    /// Whether the peer has set itself up.
    pub fn is_ready(&self) -> (b: bool)
        ensures
            b == self@.ready,
    {
        self.ready
    }

    /// Whether `topic` is subscribed.
    pub fn is_subscribed(&self, topic: &str) -> (b: bool)
        ensures
            b == self@.subscribed.contains(topic@),
    {
        list_contains(&self.subscribed, topic)
    }

    /// Sets the peer up when the transport listens on its first local
    /// address.
    pub fn setup<C>(&mut self, state: &mut GlobalState<C>, address: String) -> (actions: Vec<
        Action<C>,
    >)
        requires
            old(self).wf(),
            old(state).wf(),
        ensures
            final(self).wf(),
            final(state).wf(),
            (Step { state: final(state)@, node: final(self)@, actions: actions.deep_view() })
                == set_up(old(state)@, old(self)@, address@),
    {
        proof {
            lemma_subscriptions_stay_distinct(
                old(state)@,
                old(self)@,
                Event::<C>::NewListenAddr { address },
            );
        }
        let mut actions = no_actions();
        if !self.ready && contains_text(address.as_str(), "/ip4/127.0.0.1/udp") {
            emit(&mut actions, Action::AddAddress { peer: state.peer_id.clone(), address });
            match encode_text(&state.nickname) {
                Some(bytes) => {
                    emit(
                        &mut actions,
                        Action::PutRecord {
                            record: Record::new(format_nickname_key(state.peer_id.as_str()), bytes),
                            quorum: Quorum::One,
                            required: true,
                        },
                    );
                },
                None => {},
            }
            match encode_number(0) {
                Some(bytes) => {
                    emit(
                        &mut actions,
                        Action::PutRecord {
                            record: Record::new(format_rating_key(state.peer_id.as_str()), bytes),
                            quorum: Quorum::One,
                            required: true,
                        },
                    );
                },
                None => {},
            }
            assert(actions.deep_view() =~= seq![
                ActionView::AddAddress { peer: old(state)@.peer_id, address: address@ },
            ] + own_records(old(state)@));
            let rooms = default_rooms();
            join_rooms(state, &mut self.subscribed, &rooms, &mut actions);
            self.ready = true;
        }
        actions
    }

    /// Decides what an event changes and asks for.
    pub fn handle_event<C>(&mut self, state: &mut GlobalState<C>, event: Event<C>) -> (actions:
        Vec<Action<C>>)
        requires
            old(self).wf(),
            old(state).wf(),
        ensures
            final(self).wf(),
            final(state).wf(),
            (Step { state: final(state)@, node: final(self)@, actions: actions.deep_view() })
                == event_step(old(state)@, old(self)@, event),
    {
        proof {
            lemma_subscriptions_stay_distinct(old(state)@, old(self)@, event);
        }
        match event {
            Event::NewListenAddr { address } => self.setup(state, address),
            Event::Mdns(e) => mdns::handle_event(e, state, &mut self.subscribed),
            Event::Gossipsub(e) => gossipsub::handle_event(e, state),
            Event::Kademlia(e) => kademlia::handle_event(
                e,
                state,
                &mut self.pending,
                &mut self.subscribed,
            ),
            Event::RequestResponse(e) => request_response::handle_event(e, state),
            Event::Rendezvous(e) => rendezvous::handle_event(e),
            Event::QueryIssued { id, purpose } => {
                self.pending.register(id, purpose);
                no_actions()
            },
            Event::StoredRooms { name, value } => {
                let mut actions = no_actions();
                match create_room(name, value) {
                    Some(action) => {
                        emit(&mut actions, action);
                    },
                    None => {},
                }
                actions
            },
            Event::FileRead { filename, contents, channel } => {
                let mut actions = no_actions();
                emit(&mut actions, respond_file(filename, contents, channel));
                actions
            },
            Event::FileWritten { peer, saved } => {
                request_response::file_written(state, peer, saved);
                no_actions()
            },
            Event::Other => no_actions(),
        }
    }

    /// Decides what a command of the user interface asks for.
    pub fn handle_command<C>(&mut self, command: Command<C>) -> (actions: Vec<Action<C>>)
        requires
            old(self).wf(),
        ensures
            final(self).wf(),
            (final(self)@, actions.deep_view()) == command_step(old(self)@, command),
    {
        proof {
            lemma_commands_keep_subscriptions_distinct(old(self)@, command);
        }
        let mut actions = no_actions();
        match command {
            Command::FetchRooms {  } => {
                emit(&mut actions, fetch_rooms());
            },
            Command::CreateRoom { name } => {
                emit(&mut actions, Action::ReadStoredRooms { key: format_rooms_key(), name });
            },
            Command::SendMessage { message, room } => {
                emit(&mut actions, send_message(room, message));
            },
            Command::RequestFile { message, peer } => {
                emit(&mut actions, request_file(message, peer));
            },
            Command::RespondFile { filename, filepath, channel } => {
                emit(&mut actions, Action::ReadFile { filepath, filename, channel });
            },
            Command::UpdateRating { peer, rating } => {
                emit(&mut actions, update_rating(peer, rating));
            },
            Command::JoinRoom { room } => {
                subscribe(&mut self.subscribed, room.as_str(), &mut actions);
            },
            Command::StartListening { address } => {
                emit(&mut actions, Action::Listen { address });
            },
        }
        actions
    }
}

} // verus!
