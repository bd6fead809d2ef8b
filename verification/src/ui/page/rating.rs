use crate::network::command::{command_view, Command, CommandView};
use crate::state::{GlobalState, StateView};
use crate::ui::components::{Key, Tab};
use vstd::prelude::*;

verus! {

/// The page on which the user rates the peer that has just sent a file.
pub struct Rating {}

/// The text that asks for a rating of the peer shown under `name`.
pub open spec fn rating_prompt(name: Seq<char>) -> Seq<char> {
    "\n\nYou have just received a file! \nGive "@ + name
        + " a rating for this trade: \n\n1: Bad  2: Neutral  3: Good"@
}

/// The text of the page: it asks for a rating of the peer that is to be
/// rated, if there is one.
pub open spec fn shown_prompt<C>(s: StateView<C>) -> Option<Seq<char>> {
    match s.current_rating {
        Some(peer) => Some(rating_prompt(s.display_name(peer))),
        None => None,
    }
}

/// The command that changes the rating of the peer that is to be rated.
pub open spec fn vote<C>(s: StateView<C>, delta: i32) -> Option<CommandView<C>> {
    match s.current_rating {
        Some(peer) => Some(CommandView::UpdateRating { peer, rating: delta }),
        None => None,
    }
}

/// What a key does on the rating page: the state, the command for the
/// network, and the tab to switch to. The keys 1, 2 and 3 rate the trade as
/// bad, neutral or good: a bad one lowers the peer's rating by one, a good
/// one raises it by one. After any of the three nobody is left to rate and
/// the chat is shown. Other keys do nothing.
pub open spec fn rating_step<C>(s: StateView<C>, key: Key) -> (
    StateView<C>,
    Option<CommandView<C>>,
    Option<Tab>,
) {
    let rated = StateView { current_rating: None, ..s };
    match key {
        Key::Char(c) => if c == '1' {
            (rated, vote(s, -1i32), Some(Tab::Chat))
        } else if c == '2' {
            (rated, None, Some(Tab::Chat))
        } else if c == '3' {
            (rated, vote(s, 1i32), Some(Tab::Chat))
        } else {
            (s, None, None)
        },
        _ => (s, None, None),
    }
}

/// The characters of a string that may be missing.
pub open spec fn prompt_view(text: Option<String>) -> Option<Seq<char>> {
    match text {
        Some(t) => Some(t@),
        None => None,
    }
}

impl Rating {
    /// The page.
    pub fn new() -> Self {
        Rating {  }
    }

    /// The text of the page.
    pub fn prompt<C>(&self, state: &GlobalState<C>) -> (text: Option<String>)
        requires
            state.wf(),
        ensures
            prompt_view(text) == shown_prompt(state@),
    {
        match &state.current_rating {
            Some(peer) => {
                let mut text = String::from_str("\n\nYou have just received a file! \nGive ");
                text.append(state.display_name(peer.as_str()).as_str());
                text.append(" a rating for this trade: \n\n1: Bad  2: Neutral  3: Good");
                Some(text)
            },
            None => None,
        }
    }

    /// Handles a key; gives the command for the network and the tab to
    /// switch to, if the key asks for them.
    pub fn handle_events<C>(&mut self, state: &mut GlobalState<C>, key: Key) -> (r: (
        Option<Command<C>>,
        Option<Tab>,
    ))
        requires
            old(state).wf(),
        ensures
            final(state).wf(),
            (final(state)@, command_view(r.0), r.1) == rating_step(old(state)@, key),
    {
        let delta: i32 = match key {
            Key::Char(c) => if c == '1' {
                -1
            } else if c == '2' {
                0
            } else if c == '3' {
                1
            } else {
                return (None, None);
            },
            _ => {
                return (None, None);
            },
        };
        let rated = state.current_rating.take();
        let command = match rated {
            Some(peer) => if delta != 0 {
                Some(Command::UpdateRating { peer, rating: delta })
            } else {
                None
            },
            None => None,
        };
        (command, Some(Tab::Chat))
    }
}

impl Default for Rating {
    fn default() -> Self {
        Rating::new()
    }
}

} // verus!
