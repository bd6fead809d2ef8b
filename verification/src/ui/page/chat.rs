use crate::network::command::{command_view, Command, CommandView};
use crate::state::{appended, seeded, GlobalState, StateView};
use crate::text::{
    format_plain, format_welcome, join_lines, joined_lines, plain_line, pop_char, push_char,
    welcome_line, without_last,
};
use crate::ui::components::Key;
use vstd::prelude::*;

verus! {

/// The page on which the user reads and writes in the room that is open.
pub struct Chat {
    input: String,
}

impl View for Chat {
    type V = Seq<char>;

    /// What the user has typed so far.
    closed spec fn view(&self) -> Seq<char> {
        self.input@
    }
}

/// The state once the user looks at the open room: the room holds nothing
/// unseen any more, and it has a history, which begins with the welcome
/// line if it was missing.
pub open spec fn room_shown<C>(s: StateView<C>) -> StateView<C> {
    StateView {
        notifications: s.notifications.insert(s.current_room, false),
        messages: seeded(s.messages, s.current_room, welcome_line(s.current_room)),
        ..s
    }
}

/// The history of a room as one text, empty where the room has none.
pub open spec fn shown_messages<C>(s: StateView<C>, room: Seq<char>) -> Seq<char> {
    if s.messages.contains_key(room) {
        joined_lines(s.messages[room])
    } else {
        Seq::empty()
    }
}

/// What a key does on the chat page: the input, the state, and the command
/// for the network. A character joins the input and backspace takes the
/// last one away. Enter sends a non-empty input to the open room: it joins
/// the history of the room as the user's own line, and the input is empty
/// again.
pub open spec fn chat_step<C>(input: Seq<char>, s: StateView<C>, key: Key) -> (
    Seq<char>,
    StateView<C>,
    Option<CommandView<C>>,
) {
    match key {
        Key::Char(c) => (input.push(c), s, None),
        Key::Backspace => (without_last(input), s, None),
        Key::Enter => if input.len() > 0 {
            (
                Seq::empty(),
                StateView {
                    messages: appended(s.messages, s.current_room, plain_line("You"@, input)),
                    ..s
                },
                Some(CommandView::SendMessage { message: input, room: s.current_room }),
            )
        } else {
            (input, s, None)
        },
        _ => (input, s, None),
    }
}

impl Chat {
    /// The page with nothing typed.
    pub fn new() -> (page: Self)
        ensures
            page@ == Seq::<char>::empty(),
    {
        Chat { input: String::new() }
    }

    /// What the user has typed so far.
    pub fn input(&self) -> (text: &String)
        ensures
            text@ == self@,
    {
        &self.input
    }

    /// Handles a key; gives the command for the network, if the key asks
    /// for one.
    pub fn handle_events<C>(&mut self, state: &mut GlobalState<C>, key: Key) -> (command: Option<
        Command<C>,
    >)
        requires
            old(state).wf(),
        ensures
            final(state).wf(),
            (final(self)@, final(state)@, command_view(command)) == chat_step(
                old(self)@,
                old(state)@,
                key,
            ),
    {
        match key {
            Key::Char(c) => {
                push_char(&mut self.input, c);
                None
            },
            Key::Backspace => {
                pop_char(&mut self.input);
                None
            },
            Key::Enter => {
                if !self.input.as_str().is_empty() {
                    let message = self.input.clone();
                    let room = state.current_room.clone();
                    state.append_line(room.as_str(), format_plain("You", message.as_str()));
                    self.input = String::new();
                    Some(Command::SendMessage { message, room })
                } else {
                    None
                }
            },
            _ => None,
        }
    }

    /// The history of a room as one text, for the display.
    pub fn format_messages<C>(&self, state: &GlobalState<C>, room: &str) -> (text: String)
        requires
            state.wf(),
        ensures
            text@ == shown_messages(state@, room@),
    {
        match state.messages.get(room) {
            Some(lines) => join_lines(lines),
            None => String::new(),
        }
    }

    /// Prepares the open room for the display: it holds nothing unseen any
    /// more and has a history. Gives the room and the user's nickname.
    pub fn room_setup<C>(&self, state: &mut GlobalState<C>) -> (shown: (String, String))
        requires
            old(state).wf(),
        ensures
            final(state).wf(),
            final(state)@ == room_shown(old(state)@),
            shown.0@ == old(state)@.current_room,
            shown.1@ == old(state)@.nickname,
    {
        let nickname = state.nickname.clone();
        let room = state.current_room.clone();
        state.set_notification(room.as_str(), false);
        state.seed_history(room.as_str(), format_welcome(room.as_str()));
        (room, nickname)
    }
}

impl Default for Chat {
    fn default() -> (page: Self)
        ensures
            page@ == Seq::<char>::empty(),
    {
        Chat::new()
    }
}

} // verus!
