use crate::str_map::StrMap;
use crate::text::{format_welcome, welcome_line};
use vstd::prelude::*;

verus! {

/// The state of the application: the user's nickname and identity, the
/// nicknames of the peers, the rooms, the history of each topic, the file
/// requests that wait for an answer, and what the user has not yet seen.
/// `C` is the handle by which a file request is answered, once.
pub struct GlobalState<C> {
    pub nickname: String,
    pub peer_id: String,
    pub nicknames: StrMap<String>,
    pub peers: Vec<String>,
    pub rooms: Vec<String>,
    pub messages: StrMap<Vec<String>>,
    pub requests: Vec<(String, String, C)>,
    pub notifications: StrMap<bool>,
    pub current_rating: Option<String>,
    pub current_room: String,
}

/// The state as mathematics sees it.
pub struct StateView<C> {
    pub nickname: Seq<char>,
    pub peer_id: Seq<char>,
    pub nicknames: Map<Seq<char>, Seq<char>>,
    pub peers: Seq<Seq<char>>,
    pub rooms: Seq<Seq<char>>,
    pub messages: Map<Seq<char>, Seq<Seq<char>>>,
    pub requests: Seq<(Seq<char>, Seq<char>, C)>,
    pub notifications: Map<Seq<char>, bool>,
    pub current_rating: Option<Seq<char>>,
    pub current_room: Seq<char>,
}

/// The rooms that every peer knows without asking the network.
pub open spec fn default_room_names() -> Seq<Seq<char>> {
    seq!["Global"@, "COSC473"@, "COSC478"@, "SENG406"@, "SENG402"@]
}

/// The room that the user looks at first.
pub open spec fn first_room() -> Seq<char> {
    "Global"@
}

/// The state of a peer that has just started.
pub open spec fn initial_state<C>() -> StateView<C> {
    StateView {
        nickname: Seq::empty(),
        peer_id: Seq::empty(),
        nicknames: Map::empty(),
        peers: Seq::empty(),
        rooms: default_room_names(),
        messages: Map::empty(),
        requests: Seq::empty(),
        notifications: Map::empty(),
        current_rating: None,
        current_room: first_room(),
    }
}

/// The characters of each value of a map of strings.
pub open spec fn names(m: Map<Seq<char>, String>) -> Map<Seq<char>, Seq<char>> {
    m.map_values(|s: String| s@)
}

/// The lines of each history of a map of histories.
pub open spec fn histories(m: Map<Seq<char>, Vec<String>>) -> Map<Seq<char>, Seq<Seq<char>>> {
    m.map_values(|h: Vec<String>| h.deep_view())
}

/// The file requests with their strings as characters.
pub open spec fn requests_view<C>(requests: Seq<(String, String, C)>) -> Seq<
    (Seq<char>, Seq<char>, C),
> {
    Seq::new(requests.len(), |i: int| (requests[i].0@, requests[i].1@, requests[i].2))
}

/// The histories with one for `topic`: a missing one begins with `first`.
pub open spec fn seeded(
    messages: Map<Seq<char>, Seq<Seq<char>>>,
    topic: Seq<char>,
    first: Seq<char>,
) -> Map<Seq<char>, Seq<Seq<char>>> {
    if messages.contains_key(topic) {
        messages
    } else {
        messages.insert(topic, seq![first])
    }
}

/// The histories with `line` at the end of that of `topic`, which begins with
/// the welcome line if it was missing.
pub open spec fn appended(
    messages: Map<Seq<char>, Seq<Seq<char>>>,
    topic: Seq<char>,
    line: Seq<char>,
) -> Map<Seq<char>, Seq<Seq<char>>> {
    let with_topic = seeded(messages, topic, welcome_line(topic));
    with_topic.insert(topic, with_topic[topic].push(line))
}

/// Every history of `before` is still there in `after`, with the lines it
/// had at its beginning: histories are only added and only get longer.
pub open spec fn grown(
    before: Map<Seq<char>, Seq<Seq<char>>>,
    after: Map<Seq<char>, Seq<Seq<char>>>,
) -> bool {
    forall|topic: Seq<char>| #[trigger]
        before.contains_key(topic) ==> after.contains_key(topic) && before[topic].is_prefix_of(
            after[topic],
        )
}

/// Seeding a history and adding a line to one only let the histories grow.
pub proof fn lemma_grown(
    messages: Map<Seq<char>, Seq<Seq<char>>>,
    topic: Seq<char>,
    line: Seq<char>,
)
    ensures
        grown(messages, messages),
        grown(messages, seeded(messages, topic, line)),
        grown(messages, appended(messages, topic, line)),
{
    assert forall|t: Seq<char>| #[trigger] messages.contains_key(t) implies appended(
        messages,
        topic,
        line,
    ).contains_key(t) && messages[t].is_prefix_of(appended(messages, topic, line)[t]) by {
        if t == topic {
            assert(messages[t].push(line).subrange(0, messages[t].len() as int) =~= messages[t]);
        } else {
            assert(messages[t].subrange(0, messages[t].len() as int) =~= messages[t]);
        }
    }
    assert forall|t: Seq<char>| #[trigger] messages.contains_key(t) implies messages[t].is_prefix_of(
        messages[t],
    ) by {
        assert(messages[t].subrange(0, messages[t].len() as int) =~= messages[t]);
    }
}

impl<C> StateView<C> {
    /// The name under which a peer is shown: its nickname once that is
    /// known, its identity until then.
    pub open spec fn display_name(self, peer: Seq<char>) -> Seq<char> {
        if self.nicknames.contains_key(peer) {
            self.nicknames[peer]
        } else {
            peer
        }
    }
}

impl<C> View for GlobalState<C> {
    type V = StateView<C>;

    open spec fn view(&self) -> StateView<C> {
        StateView {
            nickname: self.nickname@,
            peer_id: self.peer_id@,
            nicknames: names(self.nicknames@),
            peers: self.peers.deep_view(),
            rooms: self.rooms.deep_view(),
            messages: histories(self.messages@),
            requests: requests_view(self.requests@),
            notifications: self.notifications@,
            current_rating: match self.current_rating {
                Some(peer) => Some(peer@),
                None => None,
            },
            current_room: self.current_room@,
        }
    }
}

/// The rooms that every peer knows without asking the network.
pub fn default_rooms() -> (rooms: Vec<String>)
    ensures
        rooms.deep_view() == default_room_names(),
{
    let mut rooms: Vec<String> = Vec::new();
    rooms.push(String::from_str("Global"));
    rooms.push(String::from_str("COSC473"));
    rooms.push(String::from_str("COSC478"));
    rooms.push(String::from_str("SENG406"));
    rooms.push(String::from_str("SENG402"));
    rooms
}

impl<C> GlobalState<C> {
    /// Each of the three maps holds a key at most once.
    pub open spec fn wf(&self) -> bool {
        self.nicknames.wf() && self.messages.wf() && self.notifications.wf()
    }

    /// The state of a peer that has just started: no peer is known, the
    /// rooms are the default ones, and the user looks at the first of them.
    pub fn new() -> (state: Self)
        ensures
            state.wf(),
            state@ == initial_state::<C>(),
    {
        let state = GlobalState {
            nickname: String::new(),
            peer_id: String::new(),
            nicknames: StrMap::new(),
            peers: Vec::new(),
            rooms: default_rooms(),
            messages: StrMap::new(),
            requests: Vec::new(),
            notifications: StrMap::new(),
            current_rating: None,
            current_room: String::from_str("Global"),
        };
        assert(state@.nicknames =~= Map::empty());
        assert(state@.messages =~= Map::empty());
        assert(state@.peers =~= Seq::empty());
        assert(state@.requests =~= Seq::empty());
        state
    }

    /// The name under which a peer is shown: its nickname once that is
    /// known, its identity until then.
    pub fn display_name(&self, peer: &str) -> (name: String)
        requires
            self.wf(),
        ensures
            name@ == self@.display_name(peer@),
    {
        match self.nicknames.get(peer) {
            Some(nickname) => nickname.clone(),
            None => String::from_str(peer),
        }
    }

    /// Records the nickname of a peer.
    pub fn set_nickname(&mut self, peer: &str, nickname: String)
        requires
            old(self).wf(),
        ensures
            final(self).wf(),
            final(self)@ == (StateView {
                nicknames: old(self)@.nicknames.insert(peer@, nickname@),
                ..old(self)@
            }),
    {
        self.nicknames.insert(String::from_str(peer), nickname);
        assert(names(self.nicknames@) =~= names(old(self).nicknames@).insert(peer@, nickname@));
    }

    /// Gives `topic` a history that begins with `first`, unless it has one.
    pub fn seed_history(&mut self, topic: &str, first: String)
        requires
            old(self).wf(),
        ensures
            final(self).wf(),
            final(self)@ == (StateView {
                messages: seeded(old(self)@.messages, topic@, first@),
                ..old(self)@
            }),
    {
        if !self.messages.contains_key(topic) {
            let mut history: Vec<String> = Vec::new();
            history.push(first);
            assert(history.deep_view() =~= seq![first@]);
            self.messages.insert(String::from_str(topic), history);
            assert(histories(self.messages@) =~= histories(old(self).messages@).insert(
                topic@,
                seq![first@],
            ));
        }
    }

    /// Adds a line to the history of `topic`. A topic without a history gets
    /// one that begins with the welcome line.
    pub fn append_line(&mut self, topic: &str, line: String)
        requires
            old(self).wf(),
        ensures
            final(self).wf(),
            final(self)@ == (StateView {
                messages: appended(old(self)@.messages, topic@, line@),
                ..old(self)@
            }),
    {
        let mut history = match self.messages.remove(topic) {
            Some(history) => history,
            None => {
                let mut history: Vec<String> = Vec::new();
                history.push(format_welcome(topic));
                assert(history.deep_view() =~= seq![welcome_line(topic@)]);
                history
            },
        };
        let ghost before = history.deep_view();
        history.push(line);
        assert(history.deep_view() =~= before.push(line@));
        self.messages.insert(String::from_str(topic), history);
        assert(histories(self.messages@) =~= appended(
            histories(old(self).messages@),
            topic@,
            line@,
        ));
    }

    /// Marks whether `topic` holds something that the user has not seen.
    pub fn set_notification(&mut self, topic: &str, unseen: bool)
        requires
            old(self).wf(),
        ensures
            final(self).wf(),
            final(self)@ == (StateView {
                notifications: old(self)@.notifications.insert(topic@, unseen),
                ..old(self)@
            }),
    {
        self.notifications.insert(String::from_str(topic), unseen);
    }
}

} // verus!
