//! Outgoing half of the prompt dialog widget: the dialog renders a
//! message with buttons, and answers travel back through a caller
//! supplied sender.

use vstd::prelude::*;

verus! {

/// Implemented by the caller's channel for the prompt dialog's answer.
pub trait PromptSendable {
    fn send(&self, msg: String);
}

} // verus!
