//! Who may print: the owner, and whoever has sent the password.

use crate::text::{same_text, trimmed, uppercased};
use vstd::prelude::*;

verus! {

/// What is done with a message before it is looked at for a print.
#[derive(Debug, Clone, Copy, PartialEq, Eq, Structural)]
pub enum Admission {
    /// The sender may print: go on with the message.
    Proceed,
    /// The sender has just sent the password: remember the sender, say
    /// that access is granted, and go on with the message.
    Grant,
    /// The sender sent a text that is not the password: ask for it, and
    /// drop the message.
    AskForPassword,
    /// The sender sent no text: greet, ask for the password, and drop the
    /// message.
    Greet,
}

/// What to do with a message, given the sender's text as it is compared
/// with the password.
pub open spec fn admission(
    is_owner: bool,
    is_authenticated: bool,
    candidate: Option<Seq<char>>,
    password: Seq<char>,
) -> Admission {
    if is_owner || is_authenticated {
        Admission::Proceed
    } else {
        match candidate {
            Some(candidate) => if candidate == password {
                Admission::Grant
            } else {
                Admission::AskForPassword
            },
            None => Admission::Greet,
        }
    }
}

/// A text as it is compared with the password: without white space at its
/// ends and in upper case.
pub open spec fn normalised(text: Option<Seq<char>>) -> Option<Seq<char>> {
    match text {
        Some(text) => Some(uppercased(trimmed(text))),
        None => None,
    }
}

/// Decides what to do with a message whose text has been brought into the
/// form in which it is compared with the password.
pub fn screen_candidate(
    is_owner: bool,
    is_authenticated: bool,
    candidate: Option<&str>,
    password: &str,
) -> (decision: Admission)
    ensures
        decision == admission(
            is_owner,
            is_authenticated,
            match candidate {
                Some(candidate) => Some(candidate@),
                None => None,
            },
            password@,
        ),
{
    if is_owner || is_authenticated {
        return Admission::Proceed;
    }
    match candidate {
        Some(candidate) => if same_text(candidate, password) {
            Admission::Grant
        } else {
            Admission::AskForPassword
        },
        None => Admission::Greet,
    }
}

/// Decides what to do with a message. The owner and senders who are
/// remembered go on. Any other sender goes on once the text of the
/// message, without white space at its ends and in upper case, is the
/// password.
pub fn screen(is_owner: bool, is_authenticated: bool, text: Option<&str>, password: &str) -> (decision:
    Admission)
    ensures
        decision == admission(
            is_owner,
            is_authenticated,
            normalised(
                match text {
                    Some(text) => Some(text@),
                    None => None,
                },
            ),
            password@,
        ),
{
    match text {
        Some(text) => {
            let candidate = text.trim().to_uppercase();
            screen_candidate(is_owner, is_authenticated, Some(candidate.as_str()), password)
        },
        None => screen_candidate(is_owner, is_authenticated, None, password),
    }
}

} // verus!
