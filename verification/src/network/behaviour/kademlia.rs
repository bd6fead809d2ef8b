use crate::network::action::{emit, no_actions, Action, ActionView};
use crate::network::codec::{
    decode_value, encode_number, number_cbor, value_of, Value, ValueView,
};
use crate::network::event::{KademliaEvent, QueryResult};
use crate::network::keys::{format_rating_key, rating_key};
use crate::network::pending::{PendingQueries, PendingView};
use crate::network::record::{plain_record, Quorum, Record};
use crate::network::rooms::{
    join_rooms, joined, lemma_joined_holds, lemma_joined_nothing_new, merged_rooms, Joined,
};
use crate::state::{appended, default_rooms, seeded, GlobalState, StateView};
use crate::text::{format_join, format_rated, join_line, rated_line};
use vstd::prelude::*;

verus! {

/// The state, the lookups that wait, the subscribed topics, and the actions
/// asked for.
pub struct Resolved<C> {
    pub state: StateView<C>,
    pub pending: PendingView,
    pub subscribed: Seq<Seq<char>>,
    pub actions: Seq<ActionView<C>>,
}

/// A rating changed by `delta`, where the sum is a 32-bit signed number.
pub open spec fn updated_rating(rating: i32, delta: i32) -> Option<i32> {
    if i32::MIN <= rating + delta <= i32::MAX {
        Some((rating + delta) as i32)
    } else {
        None
    }
}

/// The rating that a store holds after a row of changes, each made by
/// reading the rating and storing it changed: nothing where a sum on the way
/// is no 32-bit signed number.
pub open spec fn rating_after(initial: i32, deltas: Seq<i32>) -> Option<i32>
    decreases deltas.len(),
{
    if deltas.len() == 0 {
        Some(initial)
    } else {
        match rating_after(initial, deltas.drop_last()) {
            Some(rating) => updated_rating(rating, deltas.last()),
            None => None,
        }
    }
}

/// The sum of a row of changes.
pub open spec fn total(deltas: Seq<i32>) -> int
    decreases deltas.len(),
{
    if deltas.len() == 0 {
        0
    } else {
        total(deltas.drop_last()) + deltas.last()
    }
}

/// A rating that is changed by one change after the other, none of them at
/// the same time as another, ends as the first rating plus the sum of the
/// changes, as long as each rating on the way is a 32-bit signed number.
pub proof fn lemma_rating_round_trip(initial: i32, deltas: Seq<i32>)
    requires
        forall|k: int|
            0 <= k <= deltas.len() ==> i32::MIN <= initial + #[trigger] total(deltas.take(k))
                <= i32::MAX,
    ensures
        rating_after(initial, deltas) == Some((initial + total(deltas)) as i32),
    decreases deltas.len(),
{
    if deltas.len() > 0 {
        let front = deltas.drop_last();
        assert forall|k: int| 0 <= k <= front.len() implies i32::MIN <= initial + #[trigger] total(
            front.take(k),
        ) <= i32::MAX by {
            assert(front.take(k) =~= deltas.take(k));
        }
        lemma_rating_round_trip(initial, front);
        assert(deltas.take(deltas.len() as int) =~= deltas);
    } else {
        assert(deltas.take(0) =~= deltas);
    }
}

/// What the change of a rating stores: the changed rating under the peer's
/// rating key, with a quorum of one; nothing where the sum is no 32-bit
/// signed number or cannot be encoded.
pub open spec fn rating_put<C>(peer: Seq<char>, rating: i32, delta: i32) -> Seq<ActionView<C>> {
    match updated_rating(rating, delta) {
        Some(changed) => match number_cbor(changed) {
            Some(bytes) => seq![
                ActionView::PutRecord {
                    record: plain_record(rating_key(peer), bytes),
                    quorum: Quorum::One,
                    required: false,
                },
            ],
            None => Seq::empty(),
        },
        None => Seq::empty(),
    }
}

/// A lookup found a nickname: the state and the waiting lookups afterwards.
/// Where the token stands for the lookup of a peer's nickname, that lookup
/// is done: the nickname is recorded for the peer, and the direct-message
/// topic that waited with the lookup gets a history that begins with the
/// join line, unless it has one.
pub open spec fn nickname_found<C>(
    s: StateView<C>,
    pending: PendingView,
    token: u64,
    nickname: Seq<char>,
) -> (StateView<C>, PendingView) {
    if pending.nickname_fetch.contains_key(token) {
        let fetch = pending.nickname_fetch[token];
        (
            StateView {
                nicknames: s.nicknames.insert(fetch.peer, nickname),
                messages: match fetch.dm_topic {
                    Some(topic) => seeded(s.messages, topic, join_line(nickname)),
                    None => s.messages,
                },
                ..s
            },
            pending.without(token),
        )
    } else {
        (s, pending)
    }
}

/// A lookup found a rating: the state and the waiting lookups afterwards,
/// and what is asked for. Where the token stands for the lookup made for a
/// received message, that lookup is done and the message joins the history
/// of its topic, decorated by the rating. Else, where the token stands for
/// the change of a rating, that lookup is done and the changed rating is
/// stored.
pub open spec fn rating_found<C>(s: StateView<C>, pending: PendingView, token: u64, rating: i32) -> (
    StateView<C>,
    PendingView,
    Seq<ActionView<C>>,
) {
    if pending.rating_fetch.contains_key(token) {
        let fetch = pending.rating_fetch[token];
        (
            StateView {
                messages: appended(
                    s.messages,
                    fetch.topic,
                    rated_line(rating as int, fetch.nickname, fetch.message),
                ),
                ..s
            },
            pending.without(token),
            Seq::empty(),
        )
    } else if pending.rating_update.contains_key(token) {
        let update = pending.rating_update[token];
        (s, pending.without(token), rating_put(update.peer, rating, update.delta))
    } else {
        (s, pending, Seq::empty())
    }
}

/// A lookup found the list of created rooms: the state and the subscribed
/// topics afterwards, and what is asked for. The room list becomes those
/// rooms followed by the default ones, and each room of it is joined.
pub open spec fn rooms_found<C>(
    s: StateView<C>,
    subscribed: Seq<Seq<char>>,
    fetched: Seq<Seq<char>>,
) -> (StateView<C>, Seq<Seq<char>>, Seq<ActionView<C>>) {
    let rooms = merged_rooms(fetched);
    let after = joined(Joined { messages: s.messages, subscribed, actions: Seq::empty() }, rooms);
    (StateView { rooms, messages: after.messages, ..s }, after.subscribed, after.actions)
}

/// Finding the same list of created rooms a second time changes nothing
/// and asks for nothing: the room list is the same, no topic is subscribed
/// twice, and no history gets a second welcome line.
pub proof fn lemma_rooms_found_again<C>(
    s: StateView<C>,
    subscribed: Seq<Seq<char>>,
    fetched: Seq<Seq<char>>,
)
    ensures
        ({
            let once = rooms_found(s, subscribed, fetched);
            rooms_found(once.0, once.1, fetched) == (once.0, once.1, Seq::<ActionView<C>>::empty())
        }),
{
    let rooms = merged_rooms(fetched);
    let start = Joined::<C> { messages: s.messages, subscribed, actions: Seq::empty() };
    let once = joined(start, rooms);
    lemma_joined_holds(start, rooms);
    lemma_joined_nothing_new(
        Joined::<C> { messages: once.messages, subscribed: once.subscribed, actions: Seq::empty() },
        rooms,
    );
}

/// A lookup under `token` found a value of the given shape.
pub open spec fn value_found<C>(before: Resolved<C>, token: u64, value: ValueView) -> Resolved<C> {
    match value {
        ValueView::Nickname(nickname) => {
            let (state, pending) = nickname_found(before.state, before.pending, token, nickname);
            Resolved { state, pending, ..before }
        },
        ValueView::Rating(rating) => {
            let (state, pending, actions) = rating_found(
                before.state,
                before.pending,
                token,
                rating,
            );
            Resolved { state, pending, actions: before.actions + actions, ..before }
        },
        ValueView::Rooms(rooms) => {
            let (state, subscribed, actions) = rooms_found(before.state, before.subscribed, rooms);
            Resolved { state, subscribed, actions: before.actions + actions, ..before }
        },
    }
}

/// What an event of the store leaves behind. Only a record that a lookup
/// found changes anything, and only if its bytes are a nickname, a rating
/// or a room list: a lookup that failed, a record that was or was not
/// stored, and bytes of no known shape leave everything as it was, the
/// waiting lookups too.
pub open spec fn step<C>(before: Resolved<C>, event: KademliaEvent) -> Resolved<C> {
    match event {
        KademliaEvent::OutboundQueryProgressed { id, result } => match result {
            QueryResult::FoundRecord { value } => match value_of(value@) {
                Some(shape) => value_found(before, id, shape),
                None => before,
            },
            _ => before,
        },
        KademliaEvent::Other => before,
    }
}

/// What the state, the waiting lookups and the subscribed topics are
/// together, with no action asked for yet.
pub open spec fn at_rest<C>(
    state: StateView<C>,
    pending: PendingView,
    subscribed: Seq<Seq<char>>,
) -> Resolved<C> {
    Resolved { state, pending, subscribed, actions: Seq::empty() }
}

/// Changes a rating by `delta`, where the sum is a 32-bit signed number.
pub fn add_delta(rating: i32, delta: i32) -> (changed: Option<i32>)
    ensures
        changed == updated_rating(rating, delta),
{
    rating.checked_add(delta)
}

/// Stores the rating of a peer, changed by `delta`.
pub fn store_rating<C>(peer: &str, rating: i32, delta: i32) -> (actions: Vec<Action<C>>)
    ensures
        actions.deep_view() == rating_put::<C>(peer@, rating, delta),
{
    let mut actions = no_actions();
    match add_delta(rating, delta) {
        Some(changed) => match encode_number(changed) {
            Some(bytes) => {
                emit(
                    &mut actions,
                    Action::PutRecord {
                        record: Record::new(format_rating_key(peer), bytes),
                        quorum: Quorum::One,
                        required: false,
                    },
                );
            },
            None => {},
        },
        None => {},
    }
    actions
}

/// Applies a nickname that a lookup under `token` found.
pub fn apply_nickname<C>(
    token: u64,
    nickname: String,
    state: &mut GlobalState<C>,
    pending: &mut PendingQueries,
)
    requires
        old(state).wf(),
        old(pending).wf(),
    ensures
        final(state).wf(),
        final(pending).wf(),
        (final(state)@, final(pending)@) == nickname_found(
            old(state)@,
            old(pending)@,
            token,
            nickname@,
        ),
{
    match pending.take_nickname_fetch(token) {
        Some(fetch) => {
            match fetch.dm_topic {
                Some(topic) => {
                    state.seed_history(topic.as_str(), format_join(nickname.as_str()));
                },
                None => {},
            }
            state.set_nickname(fetch.peer.as_str(), nickname);
        },
        None => {},
    }
}

/// Applies a rating that a lookup under `token` found.
pub fn apply_rating<C>(
    token: u64,
    rating: i32,
    state: &mut GlobalState<C>,
    pending: &mut PendingQueries,
) -> (actions: Vec<Action<C>>)
    requires
        old(state).wf(),
        old(pending).wf(),
    ensures
        final(state).wf(),
        final(pending).wf(),
        (final(state)@, final(pending)@, actions.deep_view()) == rating_found(
            old(state)@,
            old(pending)@,
            token,
            rating,
        ),
{
    match pending.take_rating_fetch(token) {
        Some(fetch) => {
            let line = format_rated(rating, fetch.nickname.as_str(), fetch.message.as_str());
            state.append_line(fetch.topic.as_str(), line);
            no_actions()
        },
        None => match pending.take_rating_update(token) {
            Some(update) => store_rating(update.peer.as_str(), rating, update.delta),
            None => no_actions(),
        },
    }
}

/// Applies the list of created rooms that a lookup found.
pub fn apply_rooms<C>(
    fetched: Vec<String>,
    state: &mut GlobalState<C>,
    subscribed: &mut Vec<String>,
) -> (actions: Vec<Action<C>>)
    requires
        old(state).wf(),
    ensures
        final(state).wf(),
        (final(state)@, final(subscribed).deep_view(), actions.deep_view()) == rooms_found(
            old(state)@,
            old(subscribed).deep_view(),
            fetched.deep_view(),
        ),
{
    let mut actions = no_actions();
    let mut rooms = fetched;
    let mut defaults = default_rooms();
    let ghost first = rooms.deep_view();
    let ghost second = defaults.deep_view();
    rooms.append(&mut defaults);
    assert(rooms.deep_view() =~= first + second);
    join_rooms(state, subscribed, &rooms, &mut actions);
    state.rooms = rooms;
    actions
}

/// Applies a value that a lookup under `token` found.
pub fn record_found<C>(
    token: u64,
    value: Value,
    state: &mut GlobalState<C>,
    pending: &mut PendingQueries,
    subscribed: &mut Vec<String>,
) -> (actions: Vec<Action<C>>)
    requires
        old(state).wf(),
        old(pending).wf(),
    ensures
        final(state).wf(),
        final(pending).wf(),
        (Resolved {
            state: final(state)@,
            pending: final(pending)@,
            subscribed: final(subscribed).deep_view(),
            actions: actions.deep_view(),
        }) == value_found(
            at_rest(old(state)@, old(pending)@, old(subscribed).deep_view()),
            token,
            value@,
        ),
{
    let actions = match value {
        Value::Nickname(nickname) => {
            apply_nickname(token, nickname, state, pending);
            no_actions()
        },
        Value::Rating(rating) => apply_rating(token, rating, state, pending),
        Value::Rooms(fetched) => apply_rooms(fetched, state, subscribed),
    };
    actions
}

/// Handles the events of the store.
pub fn handle_event<C>(
    event: KademliaEvent,
    state: &mut GlobalState<C>,
    pending: &mut PendingQueries,
    subscribed: &mut Vec<String>,
) -> (actions: Vec<Action<C>>)
    requires
        old(state).wf(),
        old(pending).wf(),
    ensures
        final(state).wf(),
        final(pending).wf(),
        (Resolved {
            state: final(state)@,
            pending: final(pending)@,
            subscribed: final(subscribed).deep_view(),
            actions: actions.deep_view(),
        }) == step(at_rest(old(state)@, old(pending)@, old(subscribed).deep_view()), event),
{
    match event {
        KademliaEvent::OutboundQueryProgressed { id, result } => match result {
            QueryResult::FoundRecord { value } => match decode_value(value.as_slice()) {
                Some(shape) => record_found(id, shape, state, pending, subscribed),
                None => no_actions(),
            },
            _ => no_actions(),
        },
        KademliaEvent::Other => no_actions(),
    }
}

} // verus!
