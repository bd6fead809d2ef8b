use crate::network::action::{emit, Action, ActionView};
use crate::state::{
    default_room_names, grown, lemma_grown, seeded, GlobalState, StateView,
};
use crate::text::{format_welcome, list_contains, welcome_line};
use vstd::prelude::*;

verus! {

/// What subscribing to `topic` asks of the stack: nothing where the topic
/// is subscribed already.
pub open spec fn subscribe_actions<C>(subscribed: Seq<Seq<char>>, topic: Seq<char>) -> Seq<
    ActionView<C>,
> {
    if subscribed.contains(topic) {
        Seq::empty()
    } else {
        seq![ActionView::Subscribe { topic }]
    }
}

/// The subscribed topics with `topic` among them.
pub open spec fn with_topic(subscribed: Seq<Seq<char>>, topic: Seq<char>) -> Seq<Seq<char>> {
    if subscribed.contains(topic) {
        subscribed
    } else {
        subscribed.push(topic)
    }
}

/// Subscribing to a topic keeps the subscribed topics distinct, and leaves
/// the topic among them.
pub proof fn lemma_with_topic(subscribed: Seq<Seq<char>>, topic: Seq<char>)
    requires
        subscribed.no_duplicates(),
    ensures
        with_topic(subscribed, topic).no_duplicates(),
        with_topic(subscribed, topic).contains(topic),
        forall|t: Seq<char>| subscribed.contains(t) ==> with_topic(subscribed, topic).contains(t),
{
    if !subscribed.contains(topic) {
        let after = subscribed.push(topic);
        assert(after[subscribed.len() as int] == topic);
        assert forall|t: Seq<char>| subscribed.contains(t) implies after.contains(t) by {
            let i = choose|i: int| 0 <= i < subscribed.len() && subscribed[i] == t;
            assert(after[i] == t);
        }
    }
}

/// The histories, the subscribed topics and the actions asked for.
pub struct Joined<C> {
    pub messages: Map<Seq<char>, Seq<Seq<char>>>,
    pub subscribed: Seq<Seq<char>>,
    pub actions: Seq<ActionView<C>>,
}

/// Joining one room: a topic that is not yet subscribed is subscribed, and
/// a room without a history gets one that begins with the welcome line.
pub open spec fn join_one<C>(before: Joined<C>, room: Seq<char>) -> Joined<C> {
    Joined {
        messages: seeded(before.messages, room, welcome_line(room)),
        subscribed: with_topic(before.subscribed, room),
        actions: before.actions + subscribe_actions(before.subscribed, room),
    }
}

/// Joining the rooms of a list, from its first to its last.
pub open spec fn joined<C>(before: Joined<C>, rooms: Seq<Seq<char>>) -> Joined<C>
    decreases rooms.len(),
{
    if rooms.len() == 0 {
        before
    } else {
        join_one(joined(before, rooms.drop_last()), rooms.last())
    }
}

/// The room list of a peer, given the names that it fetched from the store:
/// those names, then the default rooms.
pub open spec fn merged_rooms(fetched: Seq<Seq<char>>) -> Seq<Seq<char>> {
    fetched + default_room_names()
}

/// Each room is subscribed and has a history.
pub open spec fn all_joined<C>(at: Joined<C>, rooms: Seq<Seq<char>>) -> bool {
    forall|i: int|
        0 <= i < rooms.len() ==> at.subscribed.contains(#[trigger] rooms[i])
            && at.messages.contains_key(rooms[i])
}

/// Joining rooms keeps the subscribed topics distinct: no topic is
/// subscribed twice.
pub proof fn lemma_joined_distinct<C>(before: Joined<C>, rooms: Seq<Seq<char>>)
    requires
        before.subscribed.no_duplicates(),
    ensures
        joined(before, rooms).subscribed.no_duplicates(),
    decreases rooms.len(),
{
    if rooms.len() > 0 {
        lemma_joined_distinct(before, rooms.drop_last());
        lemma_with_topic(joined(before, rooms.drop_last()).subscribed, rooms.last());
    }
}

/// Joining rooms only lets the histories grow: each history that was there
/// stays as it was.
pub proof fn lemma_joined_grown<C>(before: Joined<C>, rooms: Seq<Seq<char>>)
    ensures
        grown(before.messages, joined(before, rooms).messages),
    decreases rooms.len(),
{
    lemma_grown(before.messages, Seq::empty(), Seq::empty());
    if rooms.len() > 0 {
        let mid = joined(before, rooms.drop_last());
        lemma_joined_grown(before, rooms.drop_last());
        lemma_grown(mid.messages, rooms.last(), welcome_line(rooms.last()));
        let after = joined(before, rooms);
        assert forall|t: Seq<char>| #[trigger]
            before.messages.contains_key(t) implies after.messages.contains_key(t)
            && before.messages[t].is_prefix_of(after.messages[t]) by {
            assert(mid.messages.contains_key(t));
        }
    }
}

/// Joining rooms leaves each of them subscribed and with a history.
pub proof fn lemma_joined_holds<C>(before: Joined<C>, rooms: Seq<Seq<char>>)
    ensures
        all_joined(joined(before, rooms), rooms),
    decreases rooms.len(),
{
    if rooms.len() > 0 {
        let front = rooms.drop_last();
        let mid = joined(before, front);
        let after = joined(before, rooms);
        lemma_joined_holds(before, front);
        assert(after.subscribed.contains(rooms.last())) by {
            if !mid.subscribed.contains(rooms.last()) {
                assert(mid.subscribed.push(rooms.last())[mid.subscribed.len() as int]
                    == rooms.last());
            }
        }
        assert forall|i: int| 0 <= i < rooms.len() implies after.subscribed.contains(
            #[trigger] rooms[i],
        ) && after.messages.contains_key(rooms[i]) by {
            if i < rooms.len() - 1 {
                assert(front[i] == rooms[i]);
                if !mid.subscribed.contains(rooms.last()) {
                    let at = choose|at: int|
                        0 <= at < mid.subscribed.len() && mid.subscribed[at] == rooms[i];
                    assert(mid.subscribed.push(rooms.last())[at] == rooms[i]);
                }
            }
        }
    }
}

/// Joining rooms that are all subscribed and all have a history changes
/// nothing and asks for nothing.
pub proof fn lemma_joined_nothing_new<C>(at: Joined<C>, rooms: Seq<Seq<char>>)
    requires
        all_joined(at, rooms),
    ensures
        joined(at, rooms) == at,
    decreases rooms.len(),
{
    if rooms.len() > 0 {
        let front = rooms.drop_last();
        assert forall|i: int| 0 <= i < front.len() implies at.subscribed.contains(
            #[trigger] front[i],
        ) && at.messages.contains_key(front[i]) by {
            assert(front[i] == rooms[i]);
        }
        lemma_joined_nothing_new(at, front);
    }
}

/// Joining the same rooms a second time changes nothing: no topic is
/// subscribed twice and no history gets a second welcome line.
pub proof fn lemma_join_again<C>(before: Joined<C>, rooms: Seq<Seq<char>>)
    ensures
        joined(joined(before, rooms), rooms) == joined(before, rooms),
{
    lemma_joined_holds(before, rooms);
    lemma_joined_nothing_new(joined(before, rooms), rooms);
}

/// Merging a merged room list with the default rooms once more names the
/// same rooms.
pub proof fn lemma_merge_again(fetched: Seq<Seq<char>>)
    ensures
        merged_rooms(merged_rooms(fetched)).to_set() == merged_rooms(fetched).to_set(),
{
    let once = merged_rooms(fetched);
    let twice = merged_rooms(once);
    let defaults = default_room_names();
    assert forall|r: Seq<char>| twice.to_set().contains(r) == once.to_set().contains(r) by {
        if twice.contains(r) {
            let i = choose|i: int| 0 <= i < twice.len() && twice[i] == r;
            if i < once.len() {
                assert(once[i] == r);
            } else {
                assert(defaults[i - once.len()] == r);
                assert(once[fetched.len() + (i - once.len())] == r);
            }
        }
        if once.contains(r) {
            let i = choose|i: int| 0 <= i < once.len() && once[i] == r;
            assert(twice[i] == r);
        }
    }
}

/// Subscribes to a topic, unless it is subscribed already.
pub fn subscribe<C>(subscribed: &mut Vec<String>, topic: &str, actions: &mut Vec<Action<C>>)
    ensures
        final(subscribed).deep_view() == with_topic(old(subscribed).deep_view(), topic@),
        final(actions).deep_view() == old(actions).deep_view() + subscribe_actions(
            old(subscribed).deep_view(),
            topic@,
        ),
{
    if !list_contains(subscribed, topic) {
        subscribed.push(String::from_str(topic));
        emit(actions, Action::Subscribe { topic: String::from_str(topic) });
        assert(actions.deep_view() =~= old(actions).deep_view() + subscribe_actions::<C>(
            old(subscribed).deep_view(),
            topic@,
        ));
    } else {
        assert(actions.deep_view() =~= old(actions).deep_view() + subscribe_actions::<C>(
            old(subscribed).deep_view(),
            topic@,
        ));
    }
}

/// Joins the rooms of a list: subscribes to each that is not yet subscribed
/// and gives each that has no history one that begins with the welcome line.
pub fn join_rooms<C>(
    state: &mut GlobalState<C>,
    subscribed: &mut Vec<String>,
    rooms: &Vec<String>,
    actions: &mut Vec<Action<C>>,
)
    requires
        old(state).wf(),
    ensures
        final(state).wf(),
        ({
            let after = joined(
                Joined {
                    messages: old(state)@.messages,
                    subscribed: old(subscribed).deep_view(),
                    actions: old(actions).deep_view(),
                },
                rooms.deep_view(),
            );
            &&& final(state)@ == (StateView { messages: after.messages, ..old(state)@ })
            &&& final(subscribed).deep_view() == after.subscribed
            &&& final(actions).deep_view() == after.actions
        }),
{
    let ghost start = Joined {
        messages: old(state)@.messages,
        subscribed: old(subscribed).deep_view(),
        actions: old(actions).deep_view(),
    };
    let mut i: usize = 0;
    while i < rooms.len()
        invariant
            i <= rooms@.len(),
            state.wf(),
            state@ == (StateView {
                messages: joined(start, rooms.deep_view().take(i as int)).messages,
                ..old(state)@
            }),
            subscribed.deep_view() == joined(start, rooms.deep_view().take(i as int)).subscribed,
            actions.deep_view() == joined(start, rooms.deep_view().take(i as int)).actions,
        decreases rooms@.len() - i,
    {
        proof {
            let next = rooms.deep_view().take(i + 1);
            assert(next.drop_last() =~= rooms.deep_view().take(i as int));
        }
        let room = rooms[i].as_str();
        subscribe(subscribed, room, actions);
        state.seed_history(room, format_welcome(room));
        i += 1;
    }
    assert(rooms.deep_view().take(i as int) =~= rooms.deep_view());
}

} // verus!
