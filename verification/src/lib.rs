//! An autonomous chat bot for a peer-to-peer messaging network.
//!
//! The bot accepts every incoming contact request, answers a small set of
//! text commands, keeps a list of subscribers that receive randomized
//! broadcast messages on every loop tick, and periodically asks for its
//! state to be persisted.  This crate holds the bot's decision logic:
//! command classification, subscriber-list maintenance, broadcast
//! scheduling and the time gate for persistence.  The surrounding process
//! performs the network and file I/O and feeds events into these
//! functions.

pub mod command;
pub mod event_loop;
pub mod persist;
pub mod random_text;
pub mod state;
