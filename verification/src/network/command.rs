use crate::network::action::{Action, ActionView};
use crate::network::codec::{cbor_text_list, decode_text_list, encode_text_list, text_list_cbor};
use crate::network::keys::{format_rating_key, format_rooms_key, rating_key, rooms_key};
use crate::network::network::{Request, RequestView, Response, ResponseView};
use crate::network::pending::{PurposeView, QueryPurpose, RatingUpdate, RatingUpdateView};
use crate::network::record::{plain_record, Quorum, Record};
use vstd::prelude::*;
use vstd::utf8::encode_utf8;

verus! {

/// What the user interface asks of the event loop. `C` is the handle by
/// which a file request is answered.
#[derive(Debug, PartialEq, Eq)]
pub enum Command<C> {
    SendMessage { message: String, room: String },
    RequestFile { message: String, peer: String },
    RespondFile { filename: String, filepath: String, channel: C },
    UpdateRating { peer: String, rating: i32 },
    CreateRoom { name: String },
    FetchRooms {  },
    JoinRoom { room: String },
    StartListening { address: String },
}

/// A command as mathematics sees it.
pub enum CommandView<C> {
    SendMessage { message: Seq<char>, room: Seq<char> },
    RequestFile { message: Seq<char>, peer: Seq<char> },
    RespondFile { filename: Seq<char>, filepath: Seq<char>, channel: C },
    UpdateRating { peer: Seq<char>, rating: i32 },
    CreateRoom { name: Seq<char> },
    FetchRooms {  },
    JoinRoom { room: Seq<char> },
    StartListening { address: Seq<char> },
}

impl<C> View for Command<C> {
    type V = CommandView<C>;

    open spec fn view(&self) -> CommandView<C> {
        match *self {
            Command::SendMessage { message, room } => CommandView::SendMessage {
                message: message@,
                room: room@,
            },
            Command::RequestFile { message, peer } => CommandView::RequestFile {
                message: message@,
                peer: peer@,
            },
            Command::RespondFile { filename, filepath, channel } => CommandView::RespondFile {
                filename: filename@,
                filepath: filepath@,
                channel,
            },
            Command::UpdateRating { peer, rating } => CommandView::UpdateRating {
                peer: peer@,
                rating,
            },
            Command::CreateRoom { name } => CommandView::CreateRoom { name: name@ },
            Command::FetchRooms {  } => CommandView::FetchRooms {  },
            Command::JoinRoom { room } => CommandView::JoinRoom { room: room@ },
            Command::StartListening { address } => CommandView::StartListening {
                address: address@,
            },
        }
    }
}

impl<C> DeepView for Command<C> {
    type V = CommandView<C>;

    open spec fn deep_view(&self) -> CommandView<C> {
        self@
    }
}

/// The view of a command that may be missing.
pub open spec fn command_view<C>(command: Option<Command<C>>) -> Option<CommandView<C>> {
    match command {
        Some(c) => Some(c@),
        None => None,
    }
}

/// Asks the store for the rooms that users created. The lookup has no
/// purpose attached: its result is known by its shape.
pub fn fetch_rooms<C>() -> (action: Action<C>)
    ensures
        action@ == (ActionView::<C>::GetRecord { key: rooms_key(), purpose: None }),
{
    Action::GetRecord { key: format_rooms_key(), purpose: None }
}

/// Publishes a message to a room: the topic is the room, the payload the
/// UTF-8 bytes of the message.
pub fn send_message<C>(room: String, message: String) -> (action: Action<C>)
    ensures
        action@ == (ActionView::<C>::Publish { topic: room@, data: encode_utf8(message@) }),
{
    let data = message.as_str().as_bytes_vec();
    Action::Publish { topic: room, data }
}

/// Asks a peer for a file, in words.
pub fn request_file<C>(message: String, peer: String) -> (action: Action<C>)
    ensures
        action@ == (ActionView::<C>::SendRequest {
            peer: peer@,
            request: RequestView { message: message@ },
        }),
{
    Action::SendRequest { peer, request: Request { message } }
}

/// The bytes that go out for a file: its contents, or none where it could
/// not be read.
pub open spec fn payload(contents: Option<Vec<u8>>) -> Seq<u8> {
    match contents {
        Some(bytes) => bytes@,
        None => Seq::empty(),
    }
}

/// Answers a file request with the contents of a file, under the given
/// name. A file that could not be read goes out empty.
pub fn respond_file<C>(filename: String, contents: Option<Vec<u8>>, channel: C) -> (action:
    Action<C>)
    ensures
        action@ == (ActionView::SendResponse {
            channel,
            response: ResponseView { filename: filename@, data: payload(contents) },
        }),
{
    let data = match contents {
        Some(bytes) => bytes,
        None => Vec::new(),
    };
    Action::SendResponse { channel, response: Response { filename, data } }
}

/// Starts the change of a peer's rating: the rating is looked up first, and
/// the change waits with the lookup.
pub fn update_rating<C>(peer: String, rating: i32) -> (action: Action<C>)
    ensures
        action@ == (ActionView::<C>::GetRecord {
            key: rating_key(peer@),
            purpose: Some(
                PurposeView::RatingUpdate(RatingUpdateView { peer: peer@, delta: rating }),
            ),
        }),
{
    let key = format_rating_key(peer.as_str());
    Action::GetRecord {
        key,
        purpose: Some(QueryPurpose::RatingUpdate(RatingUpdate { peer, delta: rating })),
    }
}

/// The room list with one more name at its end; a list that was never
/// stored counts as empty.
pub open spec fn extended_rooms(current: Option<Seq<Seq<char>>>, name: Seq<char>) -> Seq<
    Seq<char>,
> {
    match current {
        Some(rooms) => rooms.push(name),
        None => seq![name],
    }
}

/// The names of a list that may be missing.
pub open spec fn list_view(list: Option<Vec<String>>) -> Option<Seq<Seq<char>>> {
    match list {
        Some(l) => Some(l.deep_view()),
        None => None,
    }
}

/// Adds a name at the end of the room list; a list that was never stored
/// counts as empty.
pub fn extend_rooms(current: Option<Vec<String>>, name: String) -> (rooms: Vec<String>)
    ensures
        rooms.deep_view() == extended_rooms(list_view(current), name@),
{
    let mut rooms: Vec<String> = match current {
        Some(rooms) => rooms,
        None => Vec::new(),
    };
    rooms.push(name);
    rooms
}

/// What is stored when a room is created, given the bytes that the store
/// holds for the room list: the list with the new name at its end, under
/// the key of the room list, with a quorum of one. Nothing is stored where
/// those bytes are no list of strings, or where the new list cannot be
/// encoded.
pub open spec fn create_room_put<C>(name: Seq<char>, stored: Option<Seq<u8>>) -> Option<
    ActionView<C>,
> {
    let current = match stored {
        Some(bytes) => cbor_text_list(bytes),
        None => None,
    };
    if stored is Some && current is None {
        None
    } else {
        match text_list_cbor(extended_rooms(current, name)) {
            Some(bytes) => Some(
                ActionView::PutRecord {
                    record: plain_record(rooms_key(), bytes),
                    quorum: Quorum::One,
                    required: false,
                },
            ),
            None => None,
        }
    }
}

/// The view of an action that may be missing.
pub open spec fn action_view<C>(action: Option<Action<C>>) -> Option<ActionView<C>> {
    match action {
        Some(a) => Some(a@),
        None => None,
    }
}

/// The bytes of a record that may be missing.
pub open spec fn bytes_view(bytes: Option<Vec<u8>>) -> Option<Seq<u8>> {
    match bytes {
        Some(b) => Some(b@),
        None => None,
    }
}

/// Creates a room: reads the stored list, adds the name and stores the list
/// again. `stored` holds the bytes of the local record, if there is one.
pub fn create_room<C>(name: String, stored: Option<Vec<u8>>) -> (action: Option<Action<C>>)
    ensures
        action_view(action) == create_room_put::<C>(name@, bytes_view(stored)),
{
    let current = match stored {
        Some(bytes) => {
            match decode_text_list(bytes.as_slice()) {
                Some(rooms) => Some(rooms),
                None => {
                    return None;
                },
            }
        },
        None => None,
    };
    let rooms = extend_rooms(current, name);
    match encode_text_list(&rooms) {
        Some(bytes) => Some(
            Action::PutRecord {
                record: Record::new(format_rooms_key(), bytes),
                quorum: Quorum::One,
                required: false,
            },
        ),
        None => None,
    }
}

} // verus!
