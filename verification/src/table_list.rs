//! Caption strings for the table list widget, supplied by the
//! application so the widget itself stays language neutral.

use vstd::prelude::*;

verus! {

/// The fixed captions the table list widget renders on its buttons and
/// headers.
pub trait TableListTexts {
    fn text_ready(&self) -> &'static str;
    fn text_leave(&self) -> &'static str;
    fn text_join(&self) -> &'static str;
    fn text_playergame(&self) -> &'static str;
    fn text_changeto(&self) -> &'static str;
}

} // verus!
