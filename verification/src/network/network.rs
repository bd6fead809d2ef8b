use vstd::prelude::*;

verus! {

/// The name of the protocol of the file exchange. Peers that are to trade
/// files with each other speak the protocol of the same name.
pub const FILE_EXCHANGE_PROTOCOL: &'static str = "/file-exchange/1";

/// The seconds that a file request may wait for its answer, and that a
/// connection may stay idle: two hours, as the answer comes from a person.
pub const REQUEST_TIMEOUT_SECS: u64 = 7200;

/// What a peer sends to ask another for a file: a message in words.
#[derive(Debug, Clone, PartialEq, Eq)]
pub struct Request {
    pub message: String,
}

/// What a peer sends back: the name of a file and its bytes.
#[derive(Debug, Clone, PartialEq, Eq)]
pub struct Response {
    pub filename: String,
    pub data: Vec<u8>,
}

/// A file request as mathematics sees it.
pub struct RequestView {
    pub message: Seq<char>,
}

/// A file response as mathematics sees it.
pub struct ResponseView {
    pub filename: Seq<char>,
    pub data: Seq<u8>,
}

impl View for Request {
    type V = RequestView;

    open spec fn view(&self) -> RequestView {
        RequestView { message: self.message@ }
    }
}

impl View for Response {
    type V = ResponseView;

    open spec fn view(&self) -> ResponseView {
        ResponseView { filename: self.filename@, data: self.data@ }
    }
}

} // verus!
