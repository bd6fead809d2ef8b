use crate::network::network::{Request, RequestView, Response, ResponseView};
use crate::network::pending::{PurposeView, QueryPurpose};
use crate::network::record::{Quorum, Record, RecordView};
use vstd::prelude::*;

verus! {

/// What the event loop asks of the protocol stack and of the file system.
/// The caller carries each out, in order, and reports back where an action
/// has an answer. `C` is the handle by which a file request is answered.
#[derive(Debug, PartialEq, Eq)]
pub enum Action<C> {
    /// Add an address of a peer to the routing table of the store.
    AddAddress { peer: String, address: String },
    /// Treat a peer as a direct partner in the exchange of messages.
    AddExplicitPeer { peer: String },
    /// Stop treating a peer as a direct partner.
    RemoveExplicitPeer { peer: String },
    /// Subscribe to a topic.
    Subscribe { topic: String },
    /// Publish bytes to the subscribers of a topic.
    Publish { topic: String, data: Vec<u8> },
    /// Look a key up in the store. With a purpose, the token of the lookup
    /// is reported back together with that purpose.
    GetRecord { key: String, purpose: Option<QueryPurpose> },
    /// Store a record, with the given quorum. Where `required` is set, a
    /// failure is fatal.
    PutRecord { record: Record, quorum: Quorum, required: bool },
    /// Read the record that the local store holds under `key`, where the
    /// room list stands, and report it back together with the name of the
    /// room that is being created.
    ReadStoredRooms { key: String, name: String },
    /// Dial an address.
    Dial { address: String },
    /// Listen on an address.
    Listen { address: String },
    /// Send a file request to a peer.
    SendRequest { peer: String, request: Request },
    /// Answer a file request over its channel.
    SendResponse { channel: C, response: Response },
    /// Read a file, and report its bytes back together with the name and
    /// the channel.
    ReadFile { filepath: String, filename: String, channel: C },
    /// Write a received file under its name, and report back whether that
    /// succeeded.
    WriteFile { peer: String, filename: String, data: Vec<u8> },
}

/// An action as mathematics sees it.
pub enum ActionView<C> {
    AddAddress { peer: Seq<char>, address: Seq<char> },
    AddExplicitPeer { peer: Seq<char> },
    RemoveExplicitPeer { peer: Seq<char> },
    Subscribe { topic: Seq<char> },
    Publish { topic: Seq<char>, data: Seq<u8> },
    GetRecord { key: Seq<char>, purpose: Option<PurposeView> },
    PutRecord { record: RecordView, quorum: Quorum, required: bool },
    ReadStoredRooms { key: Seq<char>, name: Seq<char> },
    Dial { address: Seq<char> },
    Listen { address: Seq<char> },
    SendRequest { peer: Seq<char>, request: RequestView },
    SendResponse { channel: C, response: ResponseView },
    ReadFile { filepath: Seq<char>, filename: Seq<char>, channel: C },
    WriteFile { peer: Seq<char>, filename: Seq<char>, data: Seq<u8> },
}

/// The view of a purpose that may be missing.
pub open spec fn purpose_view(purpose: Option<QueryPurpose>) -> Option<PurposeView> {
    match purpose {
        Some(p) => Some(p@),
        None => None,
    }
}

impl<C> View for Action<C> {
    type V = ActionView<C>;

    open spec fn view(&self) -> ActionView<C> {
        match *self {
            Action::AddAddress { peer, address } => ActionView::AddAddress {
                peer: peer@,
                address: address@,
            },
            Action::AddExplicitPeer { peer } => ActionView::AddExplicitPeer { peer: peer@ },
            Action::RemoveExplicitPeer { peer } => ActionView::RemoveExplicitPeer { peer: peer@ },
            Action::Subscribe { topic } => ActionView::Subscribe { topic: topic@ },
            Action::Publish { topic, data } => ActionView::Publish { topic: topic@, data: data@ },
            Action::GetRecord { key, purpose } => ActionView::GetRecord {
                key: key@,
                purpose: purpose_view(purpose),
            },
            Action::PutRecord { record, quorum, required } => ActionView::PutRecord {
                record: record@,
                quorum,
                required,
            },
            Action::ReadStoredRooms { key, name } => ActionView::ReadStoredRooms {
                key: key@,
                name: name@,
            },
            Action::Dial { address } => ActionView::Dial { address: address@ },
            Action::Listen { address } => ActionView::Listen { address: address@ },
            Action::SendRequest { peer, request } => ActionView::SendRequest {
                peer: peer@,
                request: request@,
            },
            Action::SendResponse { channel, response } => ActionView::SendResponse {
                channel,
                response: response@,
            },
            Action::ReadFile { filepath, filename, channel } => ActionView::ReadFile {
                filepath: filepath@,
                filename: filename@,
                channel,
            },
            Action::WriteFile { peer, filename, data } => ActionView::WriteFile {
                peer: peer@,
                filename: filename@,
                data: data@,
            },
        }
    }
}

impl<C> DeepView for Action<C> {
    type V = ActionView<C>;

    open spec fn deep_view(&self) -> ActionView<C> {
        self@
    }
}

/// Adds an action at the end of a list of actions.
pub fn emit<C>(actions: &mut Vec<Action<C>>, action: Action<C>)
    ensures
        final(actions).deep_view() == old(actions).deep_view().push(action@),
{
    actions.push(action);
}

/// A list without actions.
pub fn no_actions<C>() -> (actions: Vec<Action<C>>)
    ensures
        actions.deep_view() == Seq::<ActionView<C>>::empty(),
{
    let actions: Vec<Action<C>> = Vec::new();
    actions
}

} // verus!
