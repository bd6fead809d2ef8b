use crate::network::action::{emit, no_actions, Action, ActionView};
use crate::network::event::MdnsEvent;
use crate::network::keys::{format_nickname_key, nickname_key};
use crate::network::pending::{NicknameFetch, NicknameFetchView, PurposeView, QueryPurpose};
use crate::network::rooms::{lemma_with_topic, subscribe, subscribe_actions, with_topic};
use crate::state::{GlobalState, StateView};
use crate::util::{dm_key, format_dm_key};
use vstd::prelude::*;

verus! {

/// The known peers, the subscribed topics and the actions asked for.
pub struct Found<C> {
    pub peers: Seq<Seq<char>>,
    pub subscribed: Seq<Seq<char>>,
    pub actions: Seq<ActionView<C>>,
}

/// One peer was found. It becomes a direct partner in the exchange of
/// messages, its address goes to the routing table of the store, it joins
/// the list of known peers, the topic of the direct-message channel with it
/// is subscribed, and its nickname is looked up; the peer and that topic
/// wait with the lookup.
pub open spec fn discover_one<C>(
    own: Seq<char>,
    before: Found<C>,
    peer: Seq<char>,
    address: Seq<char>,
) -> Found<C> {
    let topic = dm_key(peer, own);
    Found {
        peers: before.peers.push(peer),
        subscribed: with_topic(before.subscribed, topic),
        actions: before.actions + seq![
            ActionView::AddExplicitPeer { peer },
            ActionView::AddAddress { peer, address },
        ] + subscribe_actions(before.subscribed, topic) + seq![
            ActionView::GetRecord {
                key: nickname_key(peer),
                purpose: Some(
                    PurposeView::NicknameFetch(NicknameFetchView { peer, dm_topic: Some(topic) }),
                ),
            },
        ],
    }
}

/// The peers of a list were found, from its first to its last.
pub open spec fn discovered<C>(
    own: Seq<char>,
    before: Found<C>,
    list: Seq<(Seq<char>, Seq<char>)>,
) -> Found<C>
    decreases list.len(),
{
    if list.len() == 0 {
        before
    } else {
        discover_one(own, discovered(own, before, list.drop_last()), list.last().0, list.last().1)
    }
}

/// Finding peers keeps the subscribed topics distinct: no topic is
/// subscribed twice.
pub proof fn lemma_discovered_distinct<C>(
    own: Seq<char>,
    before: Found<C>,
    list: Seq<(Seq<char>, Seq<char>)>,
)
    requires
        before.subscribed.no_duplicates(),
    ensures
        discovered(own, before, list).subscribed.no_duplicates(),
    decreases list.len(),
{
    if list.len() > 0 {
        lemma_discovered_distinct(own, before, list.drop_last());
        lemma_with_topic(
            discovered(own, before, list.drop_last()).subscribed,
            dm_key(list.last().0, own),
        );
    }
}

/// The records of the peers of a list ran out: each stops being a direct
/// partner in the exchange of messages. The list of known peers stays.
pub open spec fn expired<C>(list: Seq<(Seq<char>, Seq<char>)>) -> Seq<ActionView<C>>
    decreases list.len(),
{
    if list.len() == 0 {
        Seq::empty()
    } else {
        expired(list.drop_last()).push(ActionView::RemoveExplicitPeer { peer: list.last().0 })
    }
}

/// The state and the subscribed topics after an event of local discovery,
/// and what it asks for.
pub open spec fn step<C>(s: StateView<C>, subscribed: Seq<Seq<char>>, event: MdnsEvent) -> (
    StateView<C>,
    Seq<Seq<char>>,
    Seq<ActionView<C>>,
) {
    match event {
        MdnsEvent::Discovered(list) => {
            let found = discovered(
                s.peer_id,
                Found { peers: s.peers, subscribed, actions: Seq::empty() },
                list.deep_view(),
            );
            (StateView { peers: found.peers, ..s }, found.subscribed, found.actions)
        },
        MdnsEvent::Expired(list) => (s, subscribed, expired(list.deep_view())),
    }
}

/// Handles the events of local discovery.
pub fn handle_event<C>(
    event: MdnsEvent,
    state: &mut GlobalState<C>,
    subscribed: &mut Vec<String>,
) -> (actions: Vec<Action<C>>)
    requires
        old(state).wf(),
    ensures
        final(state).wf(),
        (final(state)@, final(subscribed).deep_view(), actions.deep_view()) == step(
            old(state)@,
            old(subscribed).deep_view(),
            event,
        ),
{
    let mut actions = no_actions();
    match event {
        MdnsEvent::Discovered(list) => {
            let ghost start = Found::<C> {
                peers: old(state)@.peers,
                subscribed: old(subscribed).deep_view(),
                actions: Seq::empty(),
            };
            let ghost own = old(state)@.peer_id;
            let mut i: usize = 0;
            while i < list.len()
                invariant
                    i <= list@.len(),
                    state.wf(),
                    own == old(state)@.peer_id,
                    state@ == (StateView {
                        peers: discovered(own, start, list.deep_view().take(i as int)).peers,
                        ..old(state)@
                    }),
                    subscribed.deep_view() == discovered(
                        own,
                        start,
                        list.deep_view().take(i as int),
                    ).subscribed,
                    actions.deep_view() == discovered(
                        own,
                        start,
                        list.deep_view().take(i as int),
                    ).actions,
                decreases list@.len() - i,
            {
                proof {
                    let next = list.deep_view().take(i + 1);
                    assert(next.drop_last() =~= list.deep_view().take(i as int));
                }
                let ghost before = discovered(own, start, list.deep_view().take(i as int));
                let peer = list[i].0.clone();
                let address = list[i].1.clone();
                emit(&mut actions, Action::AddExplicitPeer { peer: peer.clone() });
                emit(&mut actions, Action::AddAddress { peer: peer.clone(), address });
                state.peers.push(peer.clone());
                assert(state@.peers =~= before.peers.push(peer@));
                let topic = format_dm_key(peer.clone(), state.peer_id.clone());
                subscribe(subscribed, topic.as_str(), &mut actions);
                let key = format_nickname_key(peer.as_str());
                emit(
                    &mut actions,
                    Action::GetRecord {
                        key,
                        purpose: Some(
                            QueryPurpose::NicknameFetch(
                                NicknameFetch { peer, dm_topic: Some(topic) },
                            ),
                        ),
                    },
                );
                assert(actions.deep_view() =~= discover_one(
                    own,
                    before,
                    list@[i as int].0@,
                    list@[i as int].1@,
                ).actions);
                i += 1;
            }
            assert(list.deep_view().take(i as int) =~= list.deep_view());
        },
        MdnsEvent::Expired(list) => {
            let mut i: usize = 0;
            while i < list.len()
                invariant
                    i <= list@.len(),
                    actions.deep_view() == expired::<C>(list.deep_view().take(i as int)),
                decreases list@.len() - i,
            {
                proof {
                    let next = list.deep_view().take(i + 1);
                    assert(next.drop_last() =~= list.deep_view().take(i as int));
                }
                emit(&mut actions, Action::RemoveExplicitPeer { peer: list[i].0.clone() });
                i += 1;
            }
            assert(list.deep_view().take(i as int) =~= list.deep_view());
        },
    }
    actions
}

} // verus!
