//! The messages the run reports to the user, and their exact text.
//!
//! The presenter itself — a modal dialog, or nothing at all in an unattended
//! build — is an external collaborator; here stand the messages it is handed
//! and the text each one carries.

use vstd::prelude::*;
use vstd::string::StringExecFns;

verus! {

/// How a message is to be presented: as plain information, or with the
/// presenter's error styling.
#[derive(Clone, Copy, PartialEq, Eq, Structural, Debug)]
pub enum Severity {
    Info,
    Alert,
}

/// A message for the user: the device was not found, the restart succeeded,
/// or an operation failed with the subsystem's own description.
#[derive(Clone, PartialEq, Eq, Debug)]
pub enum Message {
    NotFound,
    Restarted,
    Failure(String),
}

/// The exact text of each message. A failure surfaces the underlying
/// error's description verbatim, behind a fixed preamble.
pub open spec fn message_chars(m: Message) -> Seq<char> {
    match m {
        Message::NotFound => "Could not find device"@,
        Message::Restarted => "Restarted successfully"@,
        Message::Failure(e) => "An error has occurred:\r\n\r\n"@ + e@,
    }
}

/// Renders a message as the text the presenter displays.
pub fn message_text(m: &Message) -> (r: String)
    ensures
        r@ == message_chars(*m),
{
    match m {
        Message::NotFound => String::from_str("Could not find device"),
        Message::Restarted => String::from_str("Restarted successfully"),
        Message::Failure(e) => String::from_str("An error has occurred:\r\n\r\n").concat(e.as_str()),
    }
}

/// `needle` occurs in `hay`, as one contiguous run.
pub open spec fn seq_contains(hay: Seq<char>, needle: Seq<char>) -> bool {
    exists|k: int| {
        &&& 0 <= k
        &&& k + needle.len() <= hay.len()
        &&& #[trigger] hay.subrange(k, k + needle.len()) == needle
    }
}

/// A failure message always contains the underlying error's text: it stands
/// verbatim at the end of the rendered message.
pub proof fn lemma_failure_message_contains_error(e: String)
    ensures
        seq_contains(message_chars(Message::Failure(e)), e@),
{
    let hay = message_chars(Message::Failure(e));
    let k = hay.len() - e@.len();
    assert(hay.subrange(k as int, k + e@.len()) =~= e@);
}

} // verus!
