//! The shared event vocabulary: timestamped occurrences from the two capture
//! sources (speech segments and keyboard structure hints).
//!
//! Timestamps are wall-clock offsets in whole centiseconds, assigned when the
//! underlying raw occurrence is observed, never when it is later processed.

use vstd::prelude::*;

verus! {

/// A timestamped occurrence: a transcribed speech segment or a pressed
/// structure-hint symbol.
pub enum Event {
    Transcribed { text: String, timestamp_cs: u64 },
    KeyPressed { symbol: String, timestamp_cs: u64 },
}

/// The mathematical value of an [`Event`]: the carried text as a character
/// sequence and the timestamp in centiseconds.
pub enum EventV {
    Transcribed { text: Seq<char>, timestamp_cs: u64 },
    KeyPressed { symbol: Seq<char>, timestamp_cs: u64 },
}

impl View for Event {
    type V = EventV;

    open spec fn view(&self) -> EventV {
        match self {
            Event::Transcribed { text, timestamp_cs } => EventV::Transcribed {
                text: text@,
                timestamp_cs: *timestamp_cs,
            },
            Event::KeyPressed { symbol, timestamp_cs } => EventV::KeyPressed {
                symbol: symbol@,
                timestamp_cs: *timestamp_cs,
            },
        }
    }
}

/// Uniform timestamp accessor across both variants, in centiseconds.
pub open spec fn ts_of(ev: EventV) -> u64 {
    match ev {
        EventV::Transcribed { timestamp_cs, .. } => timestamp_cs,
        EventV::KeyPressed { timestamp_cs, .. } => timestamp_cs,
    }
}

/// The text carried by either variant: the spoken segment or the symbol.
pub open spec fn content_of(ev: EventV) -> Seq<char> {
    match ev {
        EventV::Transcribed { text, .. } => text,
        EventV::KeyPressed { symbol, .. } => symbol,
    }
}

impl Event {
    /// The event's timestamp in centiseconds, whichever variant it is.
    pub fn timestamp(&self) -> (r: u64)
        ensures
            r == ts_of(self@),
    {
        match self {
            Event::Transcribed { timestamp_cs, .. } => *timestamp_cs,
            Event::KeyPressed { timestamp_cs, .. } => *timestamp_cs,
        }
    }

    /// The carried text: the transcribed segment or the key symbol.
    pub fn content(&self) -> (r: &str)
        ensures
            r@ == content_of(self@),
    {
        match self {
            Event::Transcribed { text, .. } => text.as_str(),
            Event::KeyPressed { symbol, .. } => symbol.as_str(),
        }
    }

    /// Whether this event came from the keyboard source.
    pub fn is_key(&self) -> (r: bool)
        ensures
            r == (self@ is KeyPressed),
    {
        match self {
            Event::Transcribed { .. } => false,
            Event::KeyPressed { .. } => true,
        }
    }
}

} // verus!
