pub mod action;
pub mod behaviour;
pub mod codec;
pub mod command;
pub mod event;
pub mod event_loop;
pub mod keys;
pub mod network;
pub mod pending;
pub mod record;
pub mod rooms;
