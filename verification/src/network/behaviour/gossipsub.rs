use crate::network::action::{emit, no_actions, Action, ActionView};
use crate::network::event::GossipsubEvent;
use crate::network::keys::{format_nickname_key, format_rating_key, nickname_key, rating_key};
use crate::network::pending::{
    NicknameFetch, NicknameFetchView, PurposeView, QueryPurpose, RatingFetch, RatingFetchView,
};
use crate::state::{GlobalState, StateView};
use crate::text::{text_of, text_of_bytes};
use vstd::prelude::*;

verus! {

/// The lookup of the rating of the sender of a message: the text waits with
/// the lookup, together with the name under which the sender is shown and
/// the topic.
pub open spec fn rating_lookup<C>(
    s: StateView<C>,
    source: Seq<char>,
    topic: Seq<char>,
    data: Seq<u8>,
) -> ActionView<C> {
    ActionView::GetRecord {
        key: rating_key(source),
        purpose: Some(
            PurposeView::RatingFetch(
                RatingFetchView {
                    message: text_of(data),
                    nickname: s.display_name(source),
                    topic,
                },
            ),
        ),
    }
}

/// The lookup of the nickname of a sender whose nickname is not known: the
/// sender waits with the lookup, and no topic.
pub open spec fn nickname_lookup<C>(s: StateView<C>, source: Seq<char>) -> Seq<ActionView<C>> {
    if s.nicknames.contains_key(source) {
        Seq::empty()
    } else {
        seq![
            ActionView::GetRecord {
                key: nickname_key(source),
                purpose: Some(
                    PurposeView::NicknameFetch(
                        NicknameFetchView { peer: source, dm_topic: None },
                    ),
                ),
            },
        ]
    }
}

/// A message came in on `topic`: the topic is marked as holding something
/// unseen, and the sender's rating is looked up, so that the message can be
/// shown with it. The sender is shown under the nickname that is known for
/// it at this moment, or under its identity; the nickname of a sender
/// without one is looked up for the messages to come.
pub open spec fn message_received<C>(
    s: StateView<C>,
    source: Seq<char>,
    topic: Seq<char>,
    data: Seq<u8>,
) -> (StateView<C>, Seq<ActionView<C>>) {
    (
        StateView { notifications: s.notifications.insert(topic, true), ..s },
        seq![rating_lookup(s, source, topic, data)] + nickname_lookup(s, source),
    )
}

/// The state after an event of the message exchange, and what it asks for.
pub open spec fn step<C>(s: StateView<C>, event: GossipsubEvent) -> (
    StateView<C>,
    Seq<ActionView<C>>,
) {
    match event {
        GossipsubEvent::Message { propagation_source, topic, data } => message_received(
            s,
            propagation_source@,
            topic@,
            data@,
        ),
        GossipsubEvent::Other => (s, Seq::empty()),
    }
}

/// Handles the events of the message exchange.
pub fn handle_event<C>(event: GossipsubEvent, state: &mut GlobalState<C>) -> (actions: Vec<
    Action<C>,
>)
    requires
        old(state).wf(),
    ensures
        final(state).wf(),
        (final(state)@, actions.deep_view()) == step(old(state)@, event),
{
    let mut actions = no_actions();
    match event {
        GossipsubEvent::Message { propagation_source, topic, data } => {
            let message = text_of_bytes(data.as_slice());
            let nickname = state.display_name(propagation_source.as_str());
            let known = state.nicknames.contains_key(propagation_source.as_str());
            state.set_notification(topic.as_str(), true);
            emit(
                &mut actions,
                Action::GetRecord {
                    key: format_rating_key(propagation_source.as_str()),
                    purpose: Some(
                        QueryPurpose::RatingFetch(RatingFetch { message, nickname, topic }),
                    ),
                },
            );
            if !known {
                emit(
                    &mut actions,
                    Action::GetRecord {
                        key: format_nickname_key(propagation_source.as_str()),
                        purpose: Some(
                            QueryPurpose::NicknameFetch(
                                NicknameFetch { peer: propagation_source, dm_topic: None },
                            ),
                        ),
                    },
                );
            }
        },
        GossipsubEvent::Other => {},
    }
    actions
}

} // verus!
