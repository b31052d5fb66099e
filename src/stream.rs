use vstd::prelude::*;
use crate::feed::MatchState;
use crate::text::same_text;

verus! {

/// What a change in the match feed means, with a decided match naming the
/// winner first.
#[derive(Debug, PartialEq)]
pub enum Event {
    Unknown,
    Opened(String, String),
    Locked,
    Decided(String, String),
}

/// Turns reads of the match feed into events that name winner and loser.
pub struct EventStream {}

/// The event for a fresh read: `1` and `2` name the winning side; any other
/// status that is neither `open` nor `locked` is not understood.
pub open spec fn stream_event(s: MatchState) -> Event {
    if s.status@ == "locked"@ {
        Event::Locked
    } else if s.status@ == "open"@ {
        Event::Opened(s.p1name, s.p2name)
    } else if s.status@ == "1"@ {
        Event::Decided(s.p1name, s.p2name)
    } else if s.status@ == "2"@ {
        Event::Decided(s.p2name, s.p1name)
    } else {
        Event::Unknown
    }
}

impl EventStream {
    /// The event for a fresh read of the feed.
    pub fn classify(state: &MatchState) -> (e: Event)
        ensures
            e == stream_event(*state),
    {
        let status = state.status.as_str();
        if same_text(status, "locked") {
            Event::Locked
        } else if same_text(status, "open") {
            Event::Opened(state.p1name.clone(), state.p2name.clone())
        } else if same_text(status, "1") {
            Event::Decided(state.p1name.clone(), state.p2name.clone())
        } else if same_text(status, "2") {
            Event::Decided(state.p2name.clone(), state.p1name.clone())
        } else {
            Event::Unknown
        }
    }
}

} // verus!
