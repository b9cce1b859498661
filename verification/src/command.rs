//! Classification of incoming peer text into commands.
//!
//! Matching is case-sensitive and whole-string: no trimming and no
//! partial matches.  Anything that is not one of the known command words
//! is a freeform message and draws a random reply.

use vstd::prelude::*;

verus! {

/// What a peer's text message asks for.  `Freeform` stands for any text
/// that matches no command word; the text itself travels beside the
/// command, so the variant carries none.
#[derive(Clone, Copy, PartialEq, Eq, Structural, Debug)]
pub enum Command {
    /// `"id"` or `"ID"`: reply with the bot's own network address.
    Identify,
    /// `"start"`: put the sender on the subscriber list.
    Subscribe,
    /// `"stop"`: take the sender off the subscriber list.
    Unsubscribe,
    /// Anything else: reply with a random message.
    Freeform,
}

/// The command a message text stands for, by exact comparison.
pub open spec fn spec_classify(msg: Seq<char>) -> Command {
    if msg == "id"@ || msg == "ID"@ {
        Command::Identify
    } else if msg == "start"@ {
        Command::Subscribe
    } else if msg == "stop"@ {
        Command::Unsubscribe
    } else {
        Command::Freeform
    }
}

/// Relies on `str`'s `PartialEq`: two string slices compare equal exactly
/// when their character sequences are equal.
#[verifier::external_body]
fn str_eq(a: &str, b: &str) -> (r: bool)
    ensures
        r == (a@ == b@),
{
    a == b
}

/// Classify one message text.
pub fn classify(msg: &str) -> (c: Command)
    ensures
        c == spec_classify(msg@),
{
    if str_eq(msg, "id") || str_eq(msg, "ID") {
        Command::Identify
    } else if str_eq(msg, "start") {
        Command::Subscribe
    } else if str_eq(msg, "stop") {
        Command::Unsubscribe
    } else {
        Command::Freeform
    }
}

} // verus!
