//! The engine of SwapBytes, a serverless chat and file exchange between
//! peers of one network.
//!
//! The library decides; its caller acts. The event loop in
//! [`network::event_loop`] takes the events of the protocol stack and the
//! commands of the user interface, changes the state of the application in
//! [`state`], and answers with a list of actions. The caller carries the
//! actions out in their order. Four of them have an answer, which the caller
//! hands back as an event before it takes the next event of the stack or the
//! next command:
//!
//! - a lookup with a purpose is answered by `QueryIssued`, with the token
//!   that the store gave the lookup;
//! - `ReadStoredRooms` is answered by `StoredRooms`;
//! - `ReadFile` is answered by `FileRead`;
//! - `WriteFile` is answered by `FileWritten`.
//!
//! The pages of the user interface in [`ui`] work the same way: each takes
//! a key and gives the commands for the network.
//!
//! Every function is verified against a contract over the mathematical view
//! of its arguments. What the library takes on trust are the encoder and
//! decoder of `serde_cbor`, two operations of libp2p on addresses, and three
//! string functions of the standard library; each stands behind a private
//! function whose comment says what is believed of it.

pub mod network;
pub mod state;
pub mod str_map;
pub mod text;
pub mod ui;
pub mod util;
