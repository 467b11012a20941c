//! Minimal content-source abstraction: a value that carries either
//! event content or socket content, told apart statically.

use vstd::prelude::*;

verus! {

/// A source of content for the interface. An implementor says
/// statically whether it carries event content or socket content, and
/// hands its content out on demand.
pub trait G {
    type Content;

    fn is_event() -> bool;

    fn is_socket() -> bool;

    fn get_content(&self) -> Self::Content;
}

/// An event-borne content source carrying a number.
pub struct J {
    pub content: i32,
}

impl G for J {
    type Content = i32;

    fn is_event() -> bool {
        true
    }

    fn is_socket() -> bool {
        false
    }

    fn get_content(&self) -> i32 {
        self.content
    }
}

/// A socket-borne content source carrying borrowed text.
pub struct R<'a> {
    pub content: &'a str,
}

impl<'a> G for R<'a> {
    type Content = &'a str;

    fn is_event() -> bool {
        false
    }

    fn is_socket() -> bool {
        true
    }

    fn get_content(&self) -> &'a str {
        self.content
    }
}

} // verus!
