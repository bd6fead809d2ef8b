use crate::network::network::{Request, Response};
use crate::network::pending::QueryPurpose;
use vstd::prelude::*;

verus! {

/// What local discovery reports: peers found, each with an address, and
/// peers whose record ran out.
#[derive(Debug, PartialEq, Eq)]
pub enum MdnsEvent {
    Discovered(Vec<(String, String)>),
    Expired(Vec<(String, String)>),
}

/// What the exchange of messages reports.
#[derive(Debug, PartialEq, Eq)]
pub enum GossipsubEvent {
    /// A message came in: the peer that handed it on, its topic, its bytes.
    Message { propagation_source: String, topic: String, data: Vec<u8> },
    Other,
}

/// How a query to the store went on.
#[derive(Debug, PartialEq, Eq)]
pub enum QueryResult {
    /// A lookup found a record with these bytes as its value.
    FoundRecord { value: Vec<u8> },
    GetRecordFailed,
    PutRecordOk,
    PutRecordFailed,
    Other,
}

/// What the store reports.
#[derive(Debug, PartialEq, Eq)]
pub enum KademliaEvent {
    OutboundQueryProgressed { id: u64, result: QueryResult },
    Other,
}

/// A message of the file exchange. `C` is the handle by which a request is
/// answered.
#[derive(Debug, PartialEq, Eq)]
pub enum Message<C> {
    Request { request: Request, channel: C },
    Response { response: Response },
}

/// What the file exchange reports.
#[derive(Debug, PartialEq, Eq)]
pub enum RequestResponseEvent<C> {
    Message { peer: String, message: Message<C> },
    InboundFailure,
    OutboundFailure,
    Other,
}

/// A peer's registration at the rendezvous point: its identity and the
/// addresses that it gave.
#[derive(Debug, PartialEq, Eq)]
pub struct Registration {
    pub peer: String,
    pub addresses: Vec<String>,
}

/// What the rendezvous point reports.
#[derive(Debug, PartialEq, Eq)]
pub enum RendezvousEvent {
    Discovered { registrations: Vec<Registration> },
    Registered,
    RegisterFailed,
    Other,
}

/// What the event loop reacts to: the events of the protocol stack, and the
/// answers to those of its actions that have one.
#[derive(Debug, PartialEq, Eq)]
pub enum Event<C> {
    /// The transport listens on a new address.
    NewListenAddr { address: String },
    Mdns(MdnsEvent),
    Gossipsub(GossipsubEvent),
    Kademlia(KademliaEvent),
    RequestResponse(RequestResponseEvent<C>),
    Rendezvous(RendezvousEvent),
    /// The lookup made for `purpose` goes by the token `id`.
    QueryIssued { id: u64, purpose: QueryPurpose },
    /// The local store holds `value` for the room list, while the room
    /// `name` is being created.
    StoredRooms { name: String, value: Option<Vec<u8>> },
    /// The file to send under `filename` over `channel` holds `contents`,
    /// or could not be read.
    FileRead { filename: String, contents: Option<Vec<u8>>, channel: C },
    /// The file received from `peer` was written, or was not.
    FileWritten { peer: String, saved: bool },
    Other,
}

} // verus!
