//! The data model: events, devices, and the request shapes that create them.

use vstd::prelude::*;
use crate::opt_view;

verus! {

/// The kind of engagement an event records. A closed enumeration: no other
/// values are representable.
#[derive(Clone, Copy, Debug, PartialEq, Eq, Structural, Hash)]
pub enum EventKind {
    View,
    Like,
    Share,
}

/// An immutable record of a user (or anonymous) interaction with a post.
#[derive(Debug)]
pub struct Event {
    /// Store-assigned identifier, unique and monotonic.
    pub id: i64,
    /// Present iff the creating request carried a resolved identity.
    pub user_id: Option<String>,
    /// Present iff device metadata was supplied and persisted.
    pub device_id: Option<i64>,
    /// Validated before creation by the request pipeline, not by the store.
    pub post_id: String,
    pub kind: EventKind,
    /// Creation time in UTC milliseconds, assigned by the store at insert
    /// time, never client-supplied.
    pub timestamp: i64,
}

/// Deduplicated metadata describing the client environment that produced an
/// event. The full field tuple (absent fields included) is the dedup key.
#[derive(Debug)]
pub struct Device {
    /// Store-assigned identifier.
    pub id: i64,
    pub os: Option<String>,
    pub browser: Option<String>,
    pub language: Option<String>,
    pub screen_resolution: Option<String>,
}

/// Device metadata as submitted with an event-creation request.
#[derive(Debug)]
pub struct DeviceRequest {
    pub os: Option<String>,
    pub browser: Option<String>,
    pub screen_resolution: Option<String>,
    pub language: Option<String>,
}

/// The body of an event-creation request.
#[derive(Debug)]
pub struct CreateEventRequest {
    pub post_id: String,
    pub kind: EventKind,
    pub device: Option<DeviceRequest>,
}

/// Per-kind counts of the events matching a filter. Derived, never stored;
/// missing categories report zero.
#[derive(Clone, Copy, Debug, PartialEq, Eq, Structural)]
pub struct EventSummary {
    pub views: usize,
    pub likes: usize,
    pub shares: usize,
}

/// Mathematical model of an [`Event`]: strings as character sequences,
/// machine integers as unbounded integers.
pub struct EventModel {
    pub id: int,
    pub user_id: Option<Seq<char>>,
    pub device_id: Option<int>,
    pub post_id: Seq<char>,
    pub kind: EventKind,
    pub timestamp: int,
}

/// Mathematical model of a [`Device`].
pub struct DeviceModel {
    pub id: int,
    pub os: Option<Seq<char>>,
    pub browser: Option<Seq<char>>,
    pub language: Option<Seq<char>>,
    pub screen_resolution: Option<Seq<char>>,
}

/// Mathematical model of a [`DeviceRequest`]: the dedup tuple.
pub struct DeviceRequestModel {
    pub os: Option<Seq<char>>,
    pub browser: Option<Seq<char>>,
    pub screen_resolution: Option<Seq<char>>,
    pub language: Option<Seq<char>>,
}

/// Mathematical model of a [`CreateEventRequest`].
pub struct CreateEventRequestModel {
    pub post_id: Seq<char>,
    pub kind: EventKind,
    pub device: Option<DeviceRequestModel>,
}

impl View for Event {
    type V = EventModel;

    open spec fn view(&self) -> EventModel {
        EventModel {
            id: self.id as int,
            user_id: opt_view(self.user_id),
            device_id: match self.device_id {
                Option::Some(d) => Option::Some(d as int),
                Option::None => Option::None,
            },
            post_id: self.post_id@,
            kind: self.kind,
            timestamp: self.timestamp as int,
        }
    }
}

impl View for Device {
    type V = DeviceModel;

    open spec fn view(&self) -> DeviceModel {
        DeviceModel {
            id: self.id as int,
            os: opt_view(self.os),
            browser: opt_view(self.browser),
            language: opt_view(self.language),
            screen_resolution: opt_view(self.screen_resolution),
        }
    }
}

impl View for DeviceRequest {
    type V = DeviceRequestModel;

    open spec fn view(&self) -> DeviceRequestModel {
        DeviceRequestModel {
            os: opt_view(self.os),
            browser: opt_view(self.browser),
            screen_resolution: opt_view(self.screen_resolution),
            language: opt_view(self.language),
        }
    }
}

impl View for CreateEventRequest {
    type V = CreateEventRequestModel;

    open spec fn view(&self) -> CreateEventRequestModel {
        CreateEventRequestModel {
            post_id: self.post_id@,
            kind: self.kind,
            device: match self.device {
                Option::Some(ref d) => Option::Some(d@),
                Option::None => Option::None,
            },
        }
    }
}

impl Clone for Event {
    fn clone(&self) -> (r: Self)
        ensures
            r == *self,
    {
        Event {
            id: self.id,
            user_id: crate::clone_opt_string(&self.user_id),
            device_id: self.device_id,
            post_id: self.post_id.clone(),
            kind: self.kind,
            timestamp: self.timestamp,
        }
    }
}

impl Clone for Device {
    fn clone(&self) -> (r: Self)
        ensures
            r == *self,
    {
        Device {
            id: self.id,
            os: crate::clone_opt_string(&self.os),
            browser: crate::clone_opt_string(&self.browser),
            language: crate::clone_opt_string(&self.language),
            screen_resolution: crate::clone_opt_string(&self.screen_resolution),
        }
    }
}

impl Clone for DeviceRequest {
    fn clone(&self) -> (r: Self)
        ensures
            r == *self,
    {
        DeviceRequest {
            os: crate::clone_opt_string(&self.os),
            browser: crate::clone_opt_string(&self.browser),
            screen_resolution: crate::clone_opt_string(&self.screen_resolution),
            language: crate::clone_opt_string(&self.language),
        }
    }
}

impl Clone for CreateEventRequest {
    fn clone(&self) -> (r: Self)
        ensures
            r == *self,
    {
        CreateEventRequest {
            post_id: self.post_id.clone(),
            kind: self.kind,
            device: match &self.device {
                Option::Some(d) => Option::Some(d.clone()),
                Option::None => Option::None,
            },
        }
    }
}

} // verus!
