//! Event bookkeeping for the animated, sprite-backed button widgets.

use vstd::prelude::*;

verus! {

/// Marker for a button that displays a flat color rather than an image.
#[derive(Clone, Copy)]
pub struct Flat;

/// How many times a button has been clicked with the left mouse button
/// since the last widget update. The widgets hand one of these back to
/// the caller every frame; the caller drains it one click at a time.
#[derive(Clone, Copy, Debug)]
pub struct TimesClicked(pub u16);

impl TimesClicked {
    /// `true` if the button was clicked one or more times.
    pub fn was_clicked(self) -> (clicked: bool)
        ensures
            clicked <==> self.0 > 0,
    {
        self.0 > 0
    }

    /// Consume one pending click, if any is left: the count drops by
    /// one and `Some(())` comes back; on an exhausted count, `None`.
    pub fn next(&mut self) -> (event: Option<()>)
        ensures
            old(self).0 > 0 ==> event == Some(()) && final(self).0 == old(self).0 - 1,
            old(self).0 == 0 ==> event == None::<()> && final(self).0 == 0,
    {
        if self.0 > 0 {
            self.0 = self.0 - 1;
            Some(())
        } else {
            None
        }
    }
}

} // verus!
