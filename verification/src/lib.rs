//! Support library for a card game's drag-and-drop user interface.
//!
//! The heart of the crate is the selection-preserving reorder primitive
//! shared by the draggable list widgets: when the user picks an item up
//! and drops it on another slot, the backing sequence is rearranged so
//! that the moved value lands on the destination slot, every slot
//! strictly between the two shifts by exactly one position, and all
//! other slots keep their values. The [`arrange_list`] module holds the
//! primitive for plain value sequences, and [`dragdrop_list`] the
//! variant for slots that cache a widget handle next to their payload.
//! The remaining modules declare the small event types and builder
//! traits that the widgets exchange with their callers.

pub mod animated_button;
pub mod arrange_list;
pub mod bordered_image;
pub mod dragdrop_list;
pub mod message;
pub mod promptview;
pub mod table_list;
