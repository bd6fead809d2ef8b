pub mod gossipsub;
pub mod kademlia;
pub mod mdns;
pub mod rendezvous;
pub mod request_response;
