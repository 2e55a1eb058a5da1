//! The events that the daemon reports about a message.

use vstd::prelude::*;

verus! {

/// The code under which the client library reports [`Event::Begin`].
pub const EVENT_BEGIN: u32 = 0;

/// The code under which the client library reports [`Event::End`].
pub const EVENT_END: u32 = 1;

/// The code under which the client library reports [`Event::Cancel`].
pub const EVENT_CANCEL: u32 = 3;

/// The code under which the client library reports [`Event::Pause`].
pub const EVENT_PAUSE: u32 = 4;

/// The code under which the client library reports [`Event::Resume`].
pub const EVENT_RESUME: u32 = 5;

/// The code under which the client library reports that an index mark was
/// reached. Such an event carries the mark's name and has a trampoline of its
/// own.
pub const INDEX_MARK: u32 = 2;

/// The events that carry nothing but the message and the client they belong to.
#[derive(Clone, Copy, Debug, PartialEq, Eq, Structural)]
pub enum Event {
    Begin,
    End,
    Cancel,
    Pause,
    Resume,
}

/// An event code that the trampoline it arrived at does not know. The daemon
/// and this crate then disagree about the codes, and nothing may be delivered.
#[derive(Clone, Copy, Debug, PartialEq, Eq, Structural)]
pub struct UnknownEvent {
    pub code: u32,
}

impl Event {
    /// The code under which the client library reports this event.
    pub open spec fn spec_code(self) -> u32 {
        match self {
            Event::Begin => EVENT_BEGIN,
            Event::End => EVENT_END,
            Event::Cancel => EVENT_CANCEL,
            Event::Pause => EVENT_PAUSE,
            Event::Resume => EVENT_RESUME,
        }
    }

    /// The event that a code stands for, if it stands for one of these five.
    pub open spec fn spec_from_code(code: u32) -> Option<Event> {
        if code == EVENT_BEGIN {
            Some(Event::Begin)
        } else if code == EVENT_END {
            Some(Event::End)
        } else if code == EVENT_CANCEL {
            Some(Event::Cancel)
        } else if code == EVENT_PAUSE {
            Some(Event::Pause)
        } else if code == EVENT_RESUME {
            Some(Event::Resume)
        } else {
            None
        }
    }

    /// The code under which the client library reports this event.
    #[verifier::when_used_as_spec(spec_code)]
    pub fn code(self) -> (c: u32)
        ensures
            c == self.spec_code(),
    {
        match self {
            Event::Begin => EVENT_BEGIN,
            Event::End => EVENT_END,
            Event::Cancel => EVENT_CANCEL,
            Event::Pause => EVENT_PAUSE,
            Event::Resume => EVENT_RESUME,
        }
    }

    /// Reads an event code. The code of an index mark is none of these
    /// events, and neither is any code above that of `Resume`.
    #[verifier::when_used_as_spec(spec_from_code)]
    pub fn from_code(code: u32) -> (event: Option<Event>)
        ensures
            event == Event::spec_from_code(code),
            event matches Some(e) ==> e.spec_code() == code,
            event is None <==> code == INDEX_MARK || code > EVENT_RESUME,
    {
        if code == EVENT_BEGIN {
            Some(Event::Begin)
        } else if code == EVENT_END {
            Some(Event::End)
        } else if code == EVENT_CANCEL {
            Some(Event::Cancel)
        } else if code == EVENT_PAUSE {
            Some(Event::Pause)
        } else if code == EVENT_RESUME {
            Some(Event::Resume)
        } else {
            None
        }
    }

    /// No two events share a code, and none has the code of an index mark.
    pub proof fn lemma_codes_differ(a: Event, b: Event)
        ensures
            a.spec_code() == b.spec_code() ==> a == b,
            a.spec_code() != INDEX_MARK,
    {
    }

    /// Every event is read back from its own code.
    pub proof fn lemma_code_round_trip(event: Event)
        ensures
            Event::spec_from_code(event.spec_code()) == Some(event),
    {
    }
}

} // verus!
