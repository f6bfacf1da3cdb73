//! Change notifications and the message they are turned into.

use vstd::prelude::*;

verus! {

/// Internal message of the component.
#[derive(Clone, Copy, Debug, PartialEq, Eq)]
pub enum Msg {
    /// The rendered position that was picked, if any. Position 0 is the
    /// placeholder; position `i + 1` is `options[i]`.
    Selected(Option<usize>),
}

/// A change notification as the rendering layer delivers it.
#[derive(Clone, Copy, Debug, PartialEq, Eq)]
pub enum ChangeEvent {
    /// A select element changed; carries the position it reports as chosen.
    Select(Option<u32>),
    /// A change of any other element.
    Other,
}

impl Msg {
    /// The message that a change notification stands for. A notification
    /// that does not come from a select element picks nothing.
    pub open spec fn of_event(event: ChangeEvent) -> Msg {
        match event {
            ChangeEvent::Select(Some(position)) => Msg::Selected(Some(position as usize)),
            ChangeEvent::Select(None) => Msg::Selected(None),
            ChangeEvent::Other => Msg::Selected(None),
        }
    }

    /// Turns a change notification into the component's message.
    pub fn from_event(event: ChangeEvent) -> (msg: Msg)
        ensures
            msg == Msg::of_event(event),
    {
        match event {
            ChangeEvent::Select(Some(position)) => Msg::Selected(Some(position as usize)),
            ChangeEvent::Select(None) => Msg::Selected(None),
            ChangeEvent::Other => Msg::Selected(None),
        }
    }
}

} // verus!
