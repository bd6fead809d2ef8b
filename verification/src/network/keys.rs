use vstd::prelude::*;

verus! {

/// The key under which the store holds the nickname of a peer.
pub open spec fn nickname_key(peer: Seq<char>) -> Seq<char> {
    "nickname_"@ + peer
}

/// The key under which the store holds the rating of a peer.
pub open spec fn rating_key(peer: Seq<char>) -> Seq<char> {
    "rating_"@ + peer
}

/// The key under which the store holds the names of the created rooms.
pub open spec fn rooms_key() -> Seq<char> {
    "rooms"@
}

/// Builds the key of a peer's nickname.
pub fn format_nickname_key(peer: &str) -> (key: String)
    ensures
        key@ == nickname_key(peer@),
{
    let mut key = String::from_str("nickname_");
    key.append(peer);
    key
}

/// Builds the key of a peer's rating.
pub fn format_rating_key(peer: &str) -> (key: String)
    ensures
        key@ == rating_key(peer@),
{
    let mut key = String::from_str("rating_");
    key.append(peer);
    key
}

/// Builds the key of the room list.
pub fn format_rooms_key() -> (key: String)
    ensures
        key@ == rooms_key(),
{
    String::from_str("rooms")
}

} // verus!
