//! The messages that the parts of the application send each other.

use vstd::prelude::*;

verus! {

/// A message to a component. The pointer's gestures over the canvas become the
/// four that speak of the tooltip or of an element; an index in one of them is
/// the element's place in the roster when the message was made, and may be
/// stale when the message arrives.
#[derive(Clone, Copy, Debug, PartialEq, Eq, Structural)]
pub enum SharedMessage {
    /// The roster's owner has changed the roster.
    NotifyRosterUpdated,
    /// Double click on the element at this index.
    DeleteElement(usize),
    /// The pointer has come over the element at this index.
    ShowTooltip(usize),
    /// The pointer has moved to these coordinates.
    MoveTooltip(i32, i32),
    /// The pointer has left the element.
    HideTooltip,
    /// Any message that is meant for another component.
    Unsupported,
}

impl SharedMessage {
    /// Whether the canvas takes this message.
    pub open spec fn handled(self) -> bool {
        !(self is Unsupported)
    }

    /// Whether the canvas takes this message. To send it one that it does not
    /// take is a fault of the sender.
    pub fn is_handled(&self) -> (handled: bool)
        ensures
            handled == self.handled(),
    {
        match self {
            SharedMessage::Unsupported => false,
            _ => true,
        }
    }
}

} // verus!
