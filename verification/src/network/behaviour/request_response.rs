use crate::network::action::{emit, no_actions, Action, ActionView};
use crate::network::event::{Message, RequestResponseEvent};
use crate::state::{GlobalState, StateView};
use vstd::prelude::*;

verus! {

/// The state after an event of the file exchange, and what it asks for. A
/// request joins those that wait for the user's answer. A response is to be
/// written to a file under the name it gives, with all its bytes.
pub open spec fn step<C>(s: StateView<C>, event: RequestResponseEvent<C>) -> (
    StateView<C>,
    Seq<ActionView<C>>,
) {
    match event {
        RequestResponseEvent::Message { peer, message } => match message {
            Message::Request { request, channel } => (
                StateView { requests: s.requests.push((peer@, request.message@, channel)), ..s },
                Seq::empty(),
            ),
            Message::Response { response } => (
                s,
                seq![
                    ActionView::WriteFile {
                        peer: peer@,
                        filename: response.filename@,
                        data: response.data@,
                    },
                ],
            ),
        },
        _ => (s, Seq::empty()),
    }
}

/// The state once the file received from `peer` was written or was not: a
/// file that was written makes the peer the one to rate.
pub open spec fn after_write<C>(s: StateView<C>, peer: Seq<char>, saved: bool) -> StateView<C> {
    if saved {
        StateView { current_rating: Some(peer), ..s }
    } else {
        s
    }
}

/// Handles the events of the file exchange.
pub fn handle_event<C>(event: RequestResponseEvent<C>, state: &mut GlobalState<C>) -> (actions:
    Vec<Action<C>>)
    requires
        old(state).wf(),
    ensures
        final(state).wf(),
        (final(state)@, actions.deep_view()) == step(old(state)@, event),
{
    let mut actions = no_actions();
    match event {
        RequestResponseEvent::Message { peer, message } => match message {
            Message::Request { request, channel } => {
                state.requests.push((peer, request.message, channel));
                assert(state@.requests =~= old(state)@.requests.push(
                    (peer@, request.message@, channel),
                ));
            },
            Message::Response { response } => {
                emit(
                    &mut actions,
                    Action::WriteFile { peer, filename: response.filename, data: response.data },
                );
            },
        },
        _ => {},
    }
    actions
}

/// Notes how the writing of a received file went.
pub fn file_written<C>(state: &mut GlobalState<C>, peer: String, saved: bool)
    requires
        old(state).wf(),
    ensures
        final(state).wf(),
        final(state)@ == after_write(old(state)@, peer@, saved),
{
    if saved {
        state.current_rating = Some(peer);
    }
}

} // verus!
