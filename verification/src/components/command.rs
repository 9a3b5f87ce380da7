//! What components exchange with the event loop that hosts them.

use crate::keys::key_list::KeyEvent;
use vstd::prelude::*;

verus! {

/// An input event.
#[derive(Debug, Clone, Copy, PartialEq, Eq, Structural)]
pub enum Event {
    /// A key press.
    Key(KeyEvent),
    /// Anything else: focus, mouse, paste, resize.
    Other,
}

/// What became of an event that was offered to a component.
#[derive(Debug, Clone, Copy, PartialEq, Eq, Structural)]
pub enum EventState {
    Consumed,
    NotConsumed,
}

impl EventState {
    /// `Consumed` for `true`, `NotConsumed` for `false`.
    pub open spec fn of(consumed: bool) -> EventState {
        if consumed {
            EventState::Consumed
        } else {
            EventState::NotConsumed
        }
    }

    pub fn is_consumed(&self) -> (r: bool)
        ensures
            *self == EventState::of(r),
    {
        match self {
            EventState::Consumed => true,
            EventState::NotConsumed => false,
        }
    }
}

impl From<bool> for EventState {
    fn from(consumed: bool) -> (r: Self)
        ensures
            r == EventState::of(consumed),
    {
        if consumed {
            EventState::Consumed
        } else {
            EventState::NotConsumed
        }
    }
}

impl vstd::std_specs::convert::FromSpecImpl<bool> for EventState {
    open spec fn obeys_from_spec() -> bool {
        true
    }

    open spec fn from_spec(consumed: bool) -> Self {
        EventState::of(consumed)
    }
}

/// A step through a list.
#[derive(Debug, Clone, Copy, PartialEq, Eq, Structural)]
pub enum ScrollType {
    /// One row towards the end.
    LineForward,
    /// One row towards the start.
    LineBackward,
    /// One page towards the end.
    PageForward,
    /// One page towards the start.
    PageBackward,
    /// To the first row.
    Home,
    /// To the last row.
    End,
}

/// Whether a component lets the components below it offer their commands.
#[derive(Debug, Clone, Copy, PartialEq, Eq, Structural)]
pub enum CommandBlocking {
    Blocking,
    PassingOn,
}

/// A command that the popup offers in the command bar.
#[derive(Debug, Clone, Copy, PartialEq, Eq, Structural)]
pub enum Command {
    Scroll,
    ClosePopup,
}

/// A command with the state in which it is offered.
#[derive(Debug, Clone, Copy, PartialEq, Eq, Structural)]
pub struct CommandInfo {
    pub command: Command,
    /// Whether the command can be triggered now.
    pub enabled: bool,
    /// Whether it shows in the short form of the command bar.
    pub quick_bar: bool,
}

impl CommandInfo {
    pub fn new(command: Command, enabled: bool, quick_bar: bool) -> (r: Self)
        ensures
            r == (CommandInfo { command, enabled, quick_bar }),
    {
        Self { command, enabled, quick_bar }
    }
}

} // verus!
