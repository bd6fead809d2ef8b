use crate::state::{GlobalState, StateView};
use crate::text::{pop_char, push_char, without_last};
use crate::ui::components::Key;
use vstd::prelude::*;

verus! {

/// The page on which the user enters a nickname before the application
/// begins.
pub struct Landing {
    input: String,
}

impl View for Landing {
    type V = Seq<char>;

    /// What the user has typed so far.
    closed spec fn view(&self) -> Seq<char> {
        self.input@
    }
}

/// What a key does on the landing page: the input, the state, and whether
/// the page is left. A character joins the input and backspace takes the
/// last one away. Enter makes a non-empty input the nickname and leaves
/// the page; escape leaves it as well.
pub open spec fn landing_step<C>(input: Seq<char>, s: StateView<C>, key: Key) -> (
    Seq<char>,
    StateView<C>,
    bool,
) {
    match key {
        Key::Esc => (input, s, true),
        Key::Backspace => (without_last(input), s, false),
        Key::Char(c) => (input.push(c), s, false),
        Key::Enter => if input.len() > 0 {
            (Seq::empty(), StateView { nickname: input, ..s }, true)
        } else {
            (input, s, false)
        },
        _ => (input, s, false),
    }
}

impl Landing {
    /// The page with nothing typed.
    pub fn new() -> (page: Self)
        ensures
            page@ == Seq::<char>::empty(),
    {
        Landing { input: String::new() }
    }

    /// What the user has typed so far.
    pub fn input(&self) -> (text: &String)
        ensures
            text@ == self@,
    {
        &self.input
    }

    /// Handles a key; tells whether the page is left.
    pub fn handle_events<C>(&mut self, state: &mut GlobalState<C>, key: Key) -> (done: bool)
        requires
            old(state).wf(),
        ensures
            final(state).wf(),
            (final(self)@, final(state)@, done) == landing_step(old(self)@, old(state)@, key),
    {
        match key {
            Key::Esc => true,
            Key::Backspace => {
                pop_char(&mut self.input);
                false
            },
            Key::Char(c) => {
                push_char(&mut self.input, c);
                false
            },
            Key::Enter => {
                if !self.input.as_str().is_empty() {
                    state.nickname = self.input.clone();
                    self.input = String::new();
                    true
                } else {
                    false
                }
            },
            _ => false,
        }
    }
}

impl Default for Landing {
    fn default() -> (page: Self)
        ensures
            page@ == Seq::<char>::empty(),
    {
        Landing::new()
    }
}

} // verus!
