use crate::network::command::{command_view, Command, CommandView};
use crate::state::{GlobalState, StateView};
use crate::text::{pop_char, push_char, push_text, without_last};
use crate::ui::components::{next_place, previous_place, Key, Selection};
use vstd::prelude::*;

verus! {

/// A part of the page: the list of peers to ask for a file, the list of
/// requests to answer, or neither.
#[derive(Debug, Clone, Copy, PartialEq, Eq, Structural)]
pub enum Section {
    Neither,
    Request,
    Response,
}

/// The page on which the user asks peers for files and answers their
/// requests.
pub struct Direct {
    input: String,
    peer_list_state: Selection,
    request_list_state: Selection,
    selected_section: Section,
    popup: Section,
}

/// The page as mathematics sees it.
pub struct DirectView {
    pub input: Seq<char>,
    pub peer_list_state: Option<usize>,
    pub request_list_state: Option<usize>,
    pub selected_section: Section,
    pub popup: Section,
}

impl View for Direct {
    type V = DirectView;

    closed spec fn view(&self) -> DirectView {
        DirectView {
            input: self.input@,
            peer_list_state: self.peer_list_state.selected,
            request_list_state: self.request_list_state.selected,
            selected_section: self.selected_section,
            popup: self.popup,
        }
    }
}

/// The page as it first appears: nothing typed, nothing selected, no input
/// box open.
pub open spec fn first_direct() -> DirectView {
    DirectView {
        input: Seq::empty(),
        peer_list_state: None,
        request_list_state: None,
        selected_section: Section::Neither,
        popup: Section::Neither,
    }
}

/// The page, the state and the command for the network.
pub struct DirectStep<C> {
    pub page: DirectView,
    pub state: StateView<C>,
    pub command: Option<CommandView<C>>,
}

/// The page with its input box closed and emptied.
pub open spec fn popup_closed(page: DirectView) -> DirectView {
    DirectView { popup: Section::Neither, input: Seq::empty(), ..page }
}

/// The name under which a file goes out.
pub open spec fn sent_filename() -> Seq<char> {
    "swapbytes.txt"@
}

/// Enter in the list of peers. With a peer selected and peers known, the
/// first Enter opens the box for the request; the next one sends what was
/// typed to the selected peer and closes the box. A selection beyond the
/// end of the list sends nothing.
pub open spec fn request_entered<C>(page: DirectView, s: StateView<C>) -> DirectStep<C> {
    let same = DirectStep { page, state: s, command: None };
    match page.peer_list_state {
        Some(i) => if s.peers.len() > 0 {
            if page.popup != Section::Request {
                DirectStep { page: DirectView { popup: Section::Request, ..page }, ..same }
            } else if i < s.peers.len() {
                DirectStep {
                    page: popup_closed(page),
                    command: Some(
                        CommandView::RequestFile { message: page.input, peer: s.peers[i as int] },
                    ),
                    ..same
                }
            } else {
                same
            }
        } else {
            same
        },
        None => same,
    }
}

/// Enter in the list of requests. With a request selected and requests
/// waiting, the first Enter opens the box for the path of the file; the
/// next one takes the selected request out of the list and answers it with
/// the file at the path that was typed, and closes the box. A selection
/// beyond the end of the list answers nothing.
pub open spec fn response_entered<C>(page: DirectView, s: StateView<C>) -> DirectStep<C> {
    let same = DirectStep { page, state: s, command: None };
    match page.request_list_state {
        Some(i) => if s.requests.len() > 0 {
            if page.popup != Section::Response {
                DirectStep { page: DirectView { popup: Section::Response, ..page }, ..same }
            } else if i < s.requests.len() {
                DirectStep {
                    page: popup_closed(page),
                    state: StateView { requests: s.requests.remove(i as int), ..s },
                    command: Some(
                        CommandView::RespondFile {
                            filename: sent_filename(),
                            filepath: page.input,
                            channel: s.requests[i as int].2,
                        },
                    ),
                }
            } else {
                same
            }
        } else {
            same
        },
        None => same,
    }
}

/// What a key does on the page. A character joins the input and backspace
/// takes the last one away. While no input box is open, up and down move
/// the selection of the list in use, and left and right choose the list of
/// peers or of requests and select its first item. Enter acts on the list
/// in use.
pub open spec fn direct_step<C>(page: DirectView, s: StateView<C>, key: Key) -> DirectStep<C> {
    let same = DirectStep { page, state: s, command: None };
    let free = page.popup == Section::Neither;
    match key {
        Key::Char(c) => DirectStep { page: DirectView { input: page.input.push(c), ..page }, ..same },
        Key::Backspace => DirectStep {
            page: DirectView { input: without_last(page.input), ..page },
            ..same
        },
        Key::Down => if free {
            match page.selected_section {
                Section::Request => DirectStep {
                    page: DirectView { peer_list_state: next_place(page.peer_list_state), ..page },
                    ..same
                },
                Section::Response => DirectStep {
                    page: DirectView {
                        request_list_state: next_place(page.request_list_state),
                        ..page
                    },
                    ..same
                },
                Section::Neither => same,
            }
        } else {
            same
        },
        Key::Up => if free {
            match page.selected_section {
                Section::Request => DirectStep {
                    page: DirectView {
                        peer_list_state: previous_place(page.peer_list_state),
                        ..page
                    },
                    ..same
                },
                Section::Response => DirectStep {
                    page: DirectView {
                        request_list_state: previous_place(page.request_list_state),
                        ..page
                    },
                    ..same
                },
                Section::Neither => same,
            }
        } else {
            same
        },
        Key::Left => if free {
            DirectStep {
                page: DirectView {
                    selected_section: Section::Request,
                    request_list_state: None,
                    peer_list_state: Some(0usize),
                    ..page
                },
                ..same
            }
        } else {
            same
        },
        Key::Right => if free {
            DirectStep {
                page: DirectView {
                    selected_section: Section::Response,
                    peer_list_state: None,
                    request_list_state: Some(0usize),
                    ..page
                },
                ..same
            }
        } else {
            same
        },
        Key::Enter => match page.selected_section {
            Section::Request => request_entered(page, s),
            Section::Response => response_entered(page, s),
            Section::Neither => same,
        },
        _ => same,
    }
}

/// The nicknames of those of the first `n` known peers whose nickname is
/// known.
pub open spec fn known_names<C>(s: StateView<C>, n: int) -> Seq<Seq<char>>
    decreases n,
{
    if n <= 0 {
        Seq::empty()
    } else {
        let peer = s.peers[n - 1];
        if s.nicknames.contains_key(peer) {
            known_names(s, n - 1).push(s.nicknames[peer])
        } else {
            known_names(s, n - 1)
        }
    }
}

/// A request as the list shows it: the name of the peer, a dash, and what
/// the peer asks for.
pub open spec fn request_title<C>(s: StateView<C>, request: (Seq<char>, Seq<char>, C)) -> Seq<
    char,
> {
    s.display_name(request.0) + " - "@ + request.1
}

/// The requests as the list shows them.
pub open spec fn request_titles<C>(s: StateView<C>) -> Seq<Seq<char>> {
    Seq::new(s.requests.len(), |i: int| request_title(s, s.requests[i]))
}

impl Direct {
    /// The page as it first appears.
    pub fn new() -> (page: Self)
        ensures
            page@ == first_direct(),
    {
        Direct {
            input: String::new(),
            peer_list_state: Selection::new(),
            request_list_state: Selection::new(),
            selected_section: Section::Neither,
            popup: Section::Neither,
        }
    }

    /// What the user has typed so far.
    pub fn input(&self) -> (text: &String)
        ensures
            text@ == self@.input,
    {
        &self.input
    }

    /// The selection in the list of peers.
    pub fn peer_list_state(&self) -> (selection: Selection)
        ensures
            selection.selected == self@.peer_list_state,
    {
        self.peer_list_state
    }

    /// The selection in the list of requests.
    pub fn request_list_state(&self) -> (selection: Selection)
        ensures
            selection.selected == self@.request_list_state,
    {
        self.request_list_state
    }

    /// The list that the keys act on.
    pub fn selected_section(&self) -> (section: Section)
        ensures
            section == self@.selected_section,
    {
        self.selected_section
    }

    /// The input box that is open.
    pub fn popup(&self) -> (section: Section)
        ensures
            section == self@.popup,
    {
        self.popup
    }

    /// Handles a key; gives the command for the network, if the key asks
    /// for one.
    pub fn handle_events<C>(&mut self, state: &mut GlobalState<C>, key: Key) -> (command: Option<
        Command<C>,
    >)
        requires
            old(state).wf(),
        ensures
            final(state).wf(),
            (DirectStep {
                page: final(self)@,
                state: final(state)@,
                command: command_view(command),
            }) == direct_step(old(self)@, old(state)@, key),
    {
        let free = self.popup == Section::Neither;
        match key {
            Key::Char(c) => {
                push_char(&mut self.input, c);
                None
            },
            Key::Backspace => {
                pop_char(&mut self.input);
                None
            },
            Key::Down => {
                if free {
                    match self.selected_section {
                        Section::Request => self.peer_list_state.select_next(),
                        Section::Response => self.request_list_state.select_next(),
                        Section::Neither => {},
                    }
                }
                None
            },
            Key::Up => {
                if free {
                    match self.selected_section {
                        Section::Request => self.peer_list_state.select_previous(),
                        Section::Response => self.request_list_state.select_previous(),
                        Section::Neither => {},
                    }
                }
                None
            },
            Key::Left => {
                if free {
                    self.selected_section = Section::Request;
                    self.request_list_state.select(None);
                    self.peer_list_state.select_first();
                }
                None
            },
            Key::Right => {
                if free {
                    self.selected_section = Section::Response;
                    self.peer_list_state.select(None);
                    self.request_list_state.select_first();
                }
                None
            },
            Key::Enter => match self.selected_section {
                Section::Request => self.handle_requests(state),
                Section::Response => self.handle_response(state),
                Section::Neither => None,
            },
            _ => None,
        }
    }

    /// Enter in the list of peers: opens the box for the request, or sends
    /// what was typed to the selected peer.
    pub fn handle_requests<C>(&mut self, state: &GlobalState<C>) -> (command: Option<Command<C>>)
        ensures
            (DirectStep { page: final(self)@, state: state@, command: command_view(command) })
                == request_entered(old(self)@, state@),
    {
        match self.peer_list_state.selected() {
            Some(i) => {
                if state.peers.len() > 0 {
                    if self.popup != Section::Request {
                        self.popup = Section::Request;
                        None
                    } else if i < state.peers.len() {
                        let message = self.input.clone();
                        let peer = state.peers[i].clone();
                        self.reset_popup();
                        Some(Command::RequestFile { message, peer })
                    } else {
                        None
                    }
                } else {
                    None
                }
            },
            None => None,
        }
    }

    /// Enter in the list of requests: opens the box for the path, or
    /// answers the selected request with the file at the path that was
    /// typed.
    pub fn handle_response<C>(&mut self, state: &mut GlobalState<C>) -> (command: Option<
        Command<C>,
    >)
        requires
            old(state).wf(),
        ensures
            final(state).wf(),
            (DirectStep {
                page: final(self)@,
                state: final(state)@,
                command: command_view(command),
            }) == response_entered(old(self)@, old(state)@),
    {
        match self.request_list_state.selected() {
            Some(i) => {
                if state.requests.len() > 0 {
                    if self.popup != Section::Response {
                        self.popup = Section::Response;
                        None
                    } else if i < state.requests.len() {
                        let request = state.requests.remove(i);
                        assert(state@.requests =~= old(state)@.requests.remove(i as int));
                        let filepath = self.input.clone();
                        self.reset_popup();
                        Some(
                            Command::RespondFile {
                                filename: String::from_str("swapbytes.txt"),
                                filepath,
                                channel: request.2,
                            },
                        )
                    } else {
                        None
                    }
                } else {
                    None
                }
            },
            None => None,
        }
    }

    /// Closes the input box and empties it.
    pub fn reset_popup(&mut self)
        ensures
            final(self)@ == popup_closed(old(self)@),
    {
        self.popup = Section::Neither;
        self.input = String::new();
    }

    /// The peers as the list shows them: by nickname, those whose nickname
    /// is known.
    pub fn format_peers<C>(&self, state: &GlobalState<C>) -> (names: Vec<String>)
        requires
            state.wf(),
        ensures
            names.deep_view() == known_names(state@, state@.peers.len() as int),
    {
        let mut names: Vec<String> = Vec::new();
        let mut i: usize = 0;
        while i < state.peers.len()
            invariant
                state.wf(),
                i <= state.peers@.len(),
                names.deep_view() == known_names(state@, i as int),
            decreases state.peers@.len() - i,
        {
            match state.nicknames.get(state.peers[i].as_str()) {
                Some(nickname) => {
                    push_text(&mut names, nickname.clone());
                },
                None => {},
            }
            i += 1;
        }
        names
    }

    /// The requests as the list shows them.
    pub fn format_requests<C>(&self, state: &GlobalState<C>) -> (titles: Vec<String>)
        requires
            state.wf(),
        ensures
            titles.deep_view() == request_titles(state@),
    {
        let mut titles: Vec<String> = Vec::new();
        let mut i: usize = 0;
        while i < state.requests.len()
            invariant
                state.wf(),
                i <= state.requests@.len(),
                titles@.len() == i,
                forall|j: int| 0 <= j < i ==> titles@[j]@ == request_titles(state@)[j],
            decreases state.requests@.len() - i,
        {
            let mut title = state.display_name(state.requests[i].0.as_str());
            title.append(" - ");
            title.append(state.requests[i].1.as_str());
            titles.push(title);
            i += 1;
        }
        titles
    }
}

impl Default for Direct {
    fn default() -> (page: Self)
        ensures
            page@ == first_direct(),
    {
        Direct::new()
    }
}

} // verus!
