use vstd::prelude::*;

verus! {

/// A record of the distributed store.
#[derive(Debug, Clone, PartialEq, Eq)]
pub struct Record {
    pub key: String,
    pub value: Vec<u8>,
    /// The peer that published the record, where that is told.
    pub publisher: Option<String>,
    /// The seconds after which the record runs out, where it does.
    pub expires: Option<u64>,
}

/// How many peers must have taken a record before it counts as stored.
#[derive(Debug, Clone, Copy, PartialEq, Eq, Structural)]
pub enum Quorum {
    One,
    Majority,
    All,
}

/// A record as mathematics sees it.
pub struct RecordView {
    pub key: Seq<char>,
    pub value: Seq<u8>,
    pub publisher: Option<Seq<char>>,
    pub expires: Option<u64>,
}

impl View for Record {
    type V = RecordView;

    open spec fn view(&self) -> RecordView {
        RecordView {
            key: self.key@,
            value: self.value@,
            publisher: match self.publisher {
                Some(peer) => Some(peer@),
                None => None,
            },
            expires: self.expires,
        }
    }
}

/// The record that this application stores for a value under a key: it
/// names no publisher and never runs out.
pub open spec fn plain_record(key: Seq<char>, value: Seq<u8>) -> RecordView {
    RecordView { key, value, publisher: None, expires: None }
}

impl Record {
    /// The record for a value under a key, without publisher or expiry.
    pub fn new(key: String, value: Vec<u8>) -> (record: Record)
        ensures
            record@ == plain_record(key@, value@),
    {
        Record { key, value, publisher: None, expires: None }
    }
}

} // verus!
