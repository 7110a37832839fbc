//! The data model: instants and ranges, the plugin tag, the notification
//! payload, the stored event, and its display-ready compressed projection.

use vstd::prelude::*;

verus! {

/// A point in time, in milliseconds relative to the epoch.
#[derive(Clone, Copy, PartialEq, Eq, Structural, Debug)]
pub enum Timing {
    Instant(i64),
}

impl Timing {
    /// The instant's millisecond value.
    pub open spec fn millis(self) -> i64 {
        match self {
            Timing::Instant(m) => m,
        }
    }
}

/// A closed interval of instants, in milliseconds.
#[derive(Clone, Copy, PartialEq, Eq, Structural, Debug)]
pub struct TimeRange {
    pub start: i64,
    pub end: i64,
}

impl TimeRange {
    /// Whether an instant falls inside the range, both ends included.
    pub open spec fn spec_contains(self, t: Timing) -> bool {
        self.start <= t.millis() <= self.end
    }

    /// Runtime check that an instant falls inside the range.
    pub fn contains(&self, t: &Timing) -> (r: bool)
        ensures
            r == self.spec_contains(*t),
    {
        match t {
            Timing::Instant(m) => self.start <= *m && *m <= self.end,
        }
    }
}

/// The tag that scopes events and routes to one plugin among the several
/// that share one event store.
#[derive(Clone, Copy, PartialEq, Eq, Structural, Debug)]
pub enum PluginKind {
    /// This plugin: the notification timeline source.
    Notification,
    /// Any other plugin writing to the shared store.
    Other,
}

/// The payload an external caller pushes: a source app id, a title, a body.
pub struct Notification {
    pub app: String,
    pub title: String,
    pub content: String,
}

impl Notification {
    /// A field-for-field copy.
    pub fn duplicate(&self) -> (r: Notification)
        ensures
            r == *self,
    {
        Notification {
            app: self.app.clone(),
            title: self.title.clone(),
            content: self.content.clone(),
        }
    }
}

/// A persisted timeline record: a unique id, the instant it occurred, the
/// plugin tag that scopes it, and the notification payload.
pub struct Event {
    pub timing: Timing,
    pub id: String,
    pub plugin: PluginKind,
    pub event: Notification,
}

impl Event {
    /// A field-for-field copy.
    pub fn duplicate(&self) -> (r: Event)
        ensures
            r == *self,
    {
        Event {
            timing: self.timing,
            id: self.id.clone(),
            plugin: self.plugin,
            event: self.event.duplicate(),
        }
    }
}

/// The read-side projection of a stored event: the resolved display label,
/// the event's instant, and the full payload for downstream rendering.
pub struct CompressedEvent {
    pub title: String,
    pub time: Timing,
    pub data: Notification,
}

} // verus!
