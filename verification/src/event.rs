//! The event model: instants, event types and the events themselves.

use vstd::prelude::*;
use crate::text::{decimal, decimal_text};

verus! {

/// A UTC instant: whole seconds since the Unix epoch and the nanoseconds within
/// that second. Instants are ordered by seconds first, then by nanoseconds.
#[derive(Clone, Copy, Debug, PartialEq, Eq, Structural, Hash)]
pub struct Timestamp {
    pub secs: i64,
    pub nanos: u32,
}

impl Timestamp {
    /// `self` is not later than `other`.
    pub open spec fn at_or_before(self, other: Timestamp) -> bool {
        self.secs < other.secs || (self.secs == other.secs && self.nanos <= other.nanos)
    }

    /// The earlier of two instants.
    pub open spec fn earlier(self, other: Timestamp) -> Timestamp {
        if self.at_or_before(other) {
            self
        } else {
            other
        }
    }

    /// The later of two instants.
    pub open spec fn later(self, other: Timestamp) -> Timestamp {
        if self.at_or_before(other) {
            other
        } else {
            self
        }
    }

    /// The instant that lies `nanos` nanoseconds after the second `secs`.
    pub fn new(secs: i64, nanos: u32) -> (t: Timestamp)
        ensures
            t.secs == secs,
            t.nanos == nanos,
    {
        Timestamp { secs, nanos }
    }

    /// Whether this instant is not later than the other.
    pub fn le(&self, other: &Timestamp) -> (r: bool)
        ensures
            r == self.at_or_before(*other),
    {
        self.secs < other.secs || (self.secs == other.secs && self.nanos <= other.nanos)
    }

    /// The earlier of the two instants.
    pub fn min(self, other: Timestamp) -> (t: Timestamp)
        ensures
            t == self.earlier(other),
    {
        if self.le(&other) {
            self
        } else {
            other
        }
    }

    /// The later of the two instants.
    pub fn max(self, other: Timestamp) -> (t: Timestamp)
        ensures
            t == self.later(other),
    {
        if self.le(&other) {
            other
        } else {
            self
        }
    }
}

/// The mathematical value of an event type: the closed tag, or an open label.
pub enum EventTypeView {
    Heartbeat,
    Custom(Seq<char>),
}

impl EventTypeView {
    /// The canonical text form: `Heartbeat` for the closed tag, the label itself
    /// for a custom type.
    pub open spec fn text(self) -> Seq<char> {
        match self {
            EventTypeView::Heartbeat => "Heartbeat"@,
            EventTypeView::Custom(label) => label,
        }
    }

    /// A value that parsing can produce: a custom label is never empty and never
    /// spells the closed tag.
    pub open spec fn canonical(self) -> bool {
        match self {
            EventTypeView::Heartbeat => true,
            EventTypeView::Custom(label) => label.len() > 0 && label != "Heartbeat"@,
        }
    }
}

/// What parsing makes of a text: nothing of the empty text, the closed tag of
/// the text `Heartbeat`, and a custom type of any other text.
pub open spec fn parse_event_type(text: Seq<char>) -> Option<EventTypeView> {
    if text == "Heartbeat"@ {
        Some(EventTypeView::Heartbeat)
    } else if text.len() == 0 {
        None
    } else {
        Some(EventTypeView::Custom(text))
    }
}

/// Why a text is no event type.
#[derive(Debug)]
pub struct ParseEventTypeError(pub String);

impl ParseEventTypeError {
    /// The error as a line of text.
    pub fn message(&self) -> (text: String)
        ensures
            text@ == "Failed to parse event type: "@ + self.0@,
    {
        "Failed to parse event type: ".to_owned().concat(self.0.as_str())
    }
}

/// The type of an event: the predefined heartbeat, or a custom type named by a label.
#[derive(Debug, Hash)]
pub enum EventType {
    Heartbeat,
    Custom(String),
}

impl View for EventType {
    type V = EventTypeView;

    open spec fn view(&self) -> EventTypeView {
        match self {
            EventType::Heartbeat => EventTypeView::Heartbeat,
            EventType::Custom(label) => EventTypeView::Custom(label@),
        }
    }
}

impl Clone for EventType {
    fn clone(&self) -> (r: Self)
        ensures
            r == *self,
    {
        match self {
            EventType::Heartbeat => EventType::Heartbeat,
            EventType::Custom(label) => EventType::Custom(label.clone()),
        }
    }
}

impl PartialEq for EventType {
    fn eq(&self, other: &Self) -> (r: bool) {
        match (self, other) {
            (EventType::Heartbeat, EventType::Heartbeat) => true,
            (EventType::Custom(a), EventType::Custom(b)) => *a == *b,
            _ => false,
        }
    }
}

impl vstd::std_specs::cmp::PartialEqSpecImpl for EventType {
    open spec fn obeys_eq_spec() -> bool {
        true
    }

    open spec fn eq_spec(&self, other: &Self) -> bool {
        self@ == other@
    }
}

impl Eq for EventType {

}

impl EventType {
    /// Parses the canonical text form. The empty text is rejected; the text
    /// `Heartbeat` always gives the closed tag, never a custom type.
    pub fn from_str(s: &str) -> (r: Result<EventType, ParseEventTypeError>)
        ensures
            match parse_event_type(s@) {
                Some(v) => r matches Ok(t) && t@ == v,
                None => r matches Err(e) && e.0@ == "Event type cannot be empty"@,
            },
    {
        let text = s.to_owned();
        let heartbeat = "Heartbeat".to_owned();
        if text == heartbeat {
            Ok(EventType::Heartbeat)
        } else if s.is_empty() {
            Err(ParseEventTypeError("Event type cannot be empty".to_owned()))
        } else {
            Ok(EventType::Custom(text))
        }
    }

    /// The canonical text form.
    pub fn to_text(&self) -> (text: String)
        ensures
            text@ == self@.text(),
    {
        match self {
            EventType::Heartbeat => "Heartbeat".to_owned(),
            EventType::Custom(label) => label.clone(),
        }
    }
}

/// Parsing the text of a parsed value gives the value back.
pub proof fn lemma_parse_inverts_text(v: EventTypeView)
    requires
        v.canonical(),
    ensures
        parse_event_type(v.text()) == Some(v),
{
    reveal_strlit("Heartbeat");
}

/// The text of what a non-empty text parses to is that text, and what parsing
/// produces is canonical.
pub proof fn lemma_text_inverts_parse(text: Seq<char>)
    requires
        text.len() > 0,
    ensures
        parse_event_type(text) matches Some(v) && v.text() == text && v.canonical(),
{
}

/// The JSON value of the `serde_json` crate. The library carries such a value
/// along with an event and never looks inside it.
#[verifier::external_type_specification]
#[verifier::external_body]
pub struct ExJsonValue(serde_json::Value);

/// One telemetry event of one source.
#[derive(Debug)]
pub struct Event {
    pub source_id: u64,
    pub event_type: EventType,
    pub timestamp: Timestamp,
    pub data: Option<serde_json::Value>,
}

/// What the aggregation reads of an event.
pub struct EventView {
    pub source_id: u64,
    pub event_type: EventTypeView,
    pub timestamp: Timestamp,
}

impl View for Event {
    type V = EventView;

    open spec fn view(&self) -> EventView {
        EventView {
            source_id: self.source_id,
            event_type: self.event_type@,
            timestamp: self.timestamp,
        }
    }
}

/// What the aggregation reads of each event of a run.
pub open spec fn views_of(events: Seq<Event>) -> Seq<EventView> {
    events.map_values(|event: Event| event@)
}

/// Why an event was refused at admission, with the offending value.
#[derive(Debug)]
pub enum EventValidationError {
    DisallowedSourceId(u64),
    DisallowedEventType(EventType),
}

/// The mathematical value of a refusal.
pub enum RejectionView {
    DisallowedSourceId(u64),
    DisallowedEventType(EventTypeView),
}

impl RejectionView {
    /// The refusal as a line of text, with the offending value.
    pub open spec fn message(self) -> Seq<char> {
        match self {
            RejectionView::DisallowedSourceId(id) => "Disallowed source_id: "@ + decimal(id as nat),
            RejectionView::DisallowedEventType(event_type) => "Disallowed event type: "@
                + event_type.text(),
        }
    }
}

impl EventValidationError {
    /// The refusal as a line of text, with the offending value.
    pub fn message(&self) -> (text: String)
        ensures
            text@ == self@.message(),
    {
        match self {
            EventValidationError::DisallowedSourceId(id) => "Disallowed source_id: ".to_owned().concat(
                decimal_text(*id).as_str(),
            ),
            EventValidationError::DisallowedEventType(event_type) => {
                "Disallowed event type: ".to_owned().concat(event_type.to_text().as_str())
            },
        }
    }
}

impl View for EventValidationError {
    type V = RejectionView;

    open spec fn view(&self) -> RejectionView {
        match self {
            EventValidationError::DisallowedSourceId(id) => RejectionView::DisallowedSourceId(*id),
            EventValidationError::DisallowedEventType(event_type) => {
                RejectionView::DisallowedEventType(event_type@)
            },
        }
    }
}

} // verus!
