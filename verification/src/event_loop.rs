//! One tick of the bot's event-driven runtime, as pure decisions.
//!
//! The surrounding process polls the messaging layer, hands each inbound
//! event to [`handle_event`], performs the returned outgoing traffic,
//! then runs one broadcast pass from [`broadcast_batch`] (sending each
//! entry and yielding to the messaging layer between sends) and one
//! persistence pass, and finally blocks on the messaging layer's wait
//! primitive until the next tick.  The loop itself has no termination
//! condition; only process termination ends it.

use crate::command::{classify, spec_classify, Command};
use crate::random_text::{RandomTextGenerator, MAX_MESSAGE_LEN};
use crate::state::{spec_subscribe, spec_unsubscribe, BotState, PeerId};
use vstd::prelude::*;

verus! {

/// The kind of a text message, as the messaging layer reports it.  The
/// dispatcher treats both kinds alike.
pub enum MessageKind {
    Normal,
    Action,
}

/// One inbound event from the messaging layer.
pub enum Event {
    /// A peer asks to become a contact; `key` is its public key and
    /// `text` the request message.
    ContactRequest { key: Vec<u8>, text: String },
    /// A text message from an existing contact.
    Message { peer: PeerId, kind: MessageKind, text: String },
    /// Any other event; the bot ignores it.
    Other,
}

/// What the bot sends back for one message.
pub enum Reply {
    /// The bot's own network address, for an identify command.
    Address(String),
    /// A randomized payload, for freeform text.  The bytes are not
    /// guaranteed to be well-formed text under any encoding.
    Random(Vec<u8>),
}

/// One outbound action the caller must perform against the messaging
/// layer.
pub enum Outgoing {
    /// Accept the contact request of the peer with this public key.
    Accept { key: Vec<u8> },
    /// Send this reply to this peer.
    Send { peer: PeerId, reply: Reply },
}

/// Interpret one text message from `peer`: mutate the subscriber list
/// for `"start"`/`"stop"`, answer an identify command with `address`
/// (the bot's own), and answer anything else with a random message.
/// At most one reply comes back, and the save clock is never touched.
pub fn dispatch(
    state: &mut BotState,
    gen: &mut RandomTextGenerator,
    peer: PeerId,
    msg: &str,
    address: &str,
) -> (r: Option<Reply>)
    ensures
        old(state).wf() ==> final(state).wf(),
        final(state).last_save == old(state).last_save,
        match spec_classify(msg@) {
            Command::Identify => ({
                &&& final(state).subscribers@ == old(state).subscribers@
                &&& (r matches Some(Reply::Address(a)) && a@ == address@)
            }),
            Command::Subscribe => ({
                &&& r is None
                &&& final(state).subscribers@ == spec_subscribe(
                    old(state).subscribers@,
                    peer,
                )
            }),
            Command::Unsubscribe => ({
                &&& r is None
                &&& final(state).subscribers@ == spec_unsubscribe(
                    old(state).subscribers@,
                    peer,
                )
            }),
            Command::Freeform => ({
                &&& final(state).subscribers@ == old(state).subscribers@
                &&& (r matches Some(Reply::Random(b)) && b@.len() < MAX_MESSAGE_LEN)
            }),
        },
{
    match classify(msg) {
        Command::Identify => Some(Reply::Address(address.to_owned())),
        Command::Subscribe => {
            state.subscribe(peer);
            None
        },
        Command::Unsubscribe => {
            state.unsubscribe(peer);
            None
        },
        Command::Freeform => Some(Reply::Random(gen.random_message())),
    }
}

/// Route one inbound event.  A contact request is accepted
/// unconditionally — the policy is accept-all, with no way to reject a
/// peer — and draws no reply of its own; a text message goes through
/// [`dispatch`]; any other event is ignored.
pub fn handle_event(
    state: &mut BotState,
    gen: &mut RandomTextGenerator,
    ev: Event,
    address: &str,
) -> (out: Option<Outgoing>)
    ensures
        old(state).wf() ==> final(state).wf(),
        final(state).last_save == old(state).last_save,
        match ev {
            Event::ContactRequest { key, text } => ({
                &&& final(state).subscribers@ == old(state).subscribers@
                &&& (out matches Some(Outgoing::Accept { key: k }) && k@ == key@)
            }),
            Event::Message { peer, kind, text } => (match spec_classify(text@) {
                Command::Identify => ({
                    &&& final(state).subscribers@ == old(state).subscribers@
                    &&& (out matches Some(Outgoing::Send { peer: p, reply })
                        && p == peer
                        && (reply matches Reply::Address(a) && a@ == address@))
                }),
                Command::Subscribe => ({
                    &&& out is None
                    &&& final(state).subscribers@ == spec_subscribe(
                        old(state).subscribers@,
                        peer,
                    )
                }),
                Command::Unsubscribe => ({
                    &&& out is None
                    &&& final(state).subscribers@ == spec_unsubscribe(
                        old(state).subscribers@,
                        peer,
                    )
                }),
                Command::Freeform => ({
                    &&& final(state).subscribers@ == old(state).subscribers@
                    &&& (out matches Some(Outgoing::Send { peer: p, reply })
                        && p == peer
                        && (reply matches Reply::Random(b) && b@.len() < MAX_MESSAGE_LEN))
                }),
            }),
            Event::Other => ({
                &&& out is None
                &&& final(state).subscribers@ == old(state).subscribers@
            }),
        },
{
    match ev {
        Event::ContactRequest { key, text: _ } => Some(Outgoing::Accept { key }),
        Event::Message { peer, kind: _, text } => {
            match dispatch(state, gen, peer, text.as_str(), address) {
                Some(reply) => Some(Outgoing::Send { peer, reply }),
                None => None,
            }
        },
        Event::Other => None,
    }
}

/// One broadcast pass: for every subscriber, in list order, one
/// independently drawn random message.  The caller sends entry `i` to
/// its peer and yields to the messaging layer before the next send, so
/// queued outbound traffic can flush; send failures are dropped.
pub fn broadcast_batch(state: &BotState, gen: &mut RandomTextGenerator) -> (batch: Vec<
    (PeerId, Vec<u8>),
>)
    ensures
        batch@.len() == state.subscribers@.len(),
        forall|i: int|
            0 <= i < batch@.len() ==> (#[trigger] batch@[i]).0 == state.subscribers@[i]
                && batch@[i].1@.len() < MAX_MESSAGE_LEN,
{
    let mut batch: Vec<(PeerId, Vec<u8>)> = Vec::new();
    let mut i: usize = 0;
    while i < state.subscribers.len()
        invariant
            i <= state.subscribers@.len(),
            batch@.len() == i,
            forall|j: int|
                0 <= j < i ==> (#[trigger] batch@[j]).0 == state.subscribers@[j]
                    && batch@[j].1@.len() < MAX_MESSAGE_LEN,
        decreases state.subscribers@.len() - i,
    {
        let msg = gen.random_message();
        batch.push((state.subscribers[i], msg));
        i = i + 1;
    }
    batch
}

} // verus!
