//! The decoded answer of the event search.
//!
//! These types are plain data: they mirror the fields of the JSON document
//! that the service returns and carry no rules of their own.

use vstd::prelude::*;

verus! {

/// One page of search results together with its pagination counters.
#[derive(PartialEq, Clone, Debug)]
pub struct ConnpassResponse {
    /// The number of events in this page.
    pub results_returned: u32,
    /// The number of events that match the query in total.
    pub results_available: u32,
    /// The 1-based offset of the first event of this page.
    pub results_start: u32,
    /// The events of this page.
    pub events: Vec<Event>,
}

/// One event. Only its id is always present.
#[derive(PartialEq, Clone, Debug)]
pub struct Event {
    pub event_id: u32,
    pub title: Option<String>,
    pub catch: Option<String>,
    pub description: Option<String>,
    pub event_url: Option<String>,
    pub hash_tag: Option<String>,
    /// Start time, kept as the text that the service sent.
    pub started_at: Option<String>,
    /// End time, kept as the text that the service sent.
    pub ended_at: Option<String>,
    pub limit: Option<u32>,
    pub event_type: Option<EventType>,
    pub series: Option<Series>,
    pub address: Option<String>,
    pub place: Option<String>,
    /// Latitude, kept as the text that the service sent.
    pub lat: Option<String>,
    /// Longitude, kept as the text that the service sent.
    pub lon: Option<String>,
    pub owner_id: Option<u32>,
    pub owner_nickname: Option<String>,
    pub owner_display_name: Option<String>,
    pub accepted: Option<u32>,
    pub waiting: Option<u32>,
    /// Time of the last update, kept as the text that the service sent.
    pub updated_at: Option<String>,
}

/// How people take part in an event.
#[derive(PartialEq, Clone, Debug)]
pub enum EventType {
    /// Participants register through the service.
    Participation,
    /// The event is only announced on the service.
    Advertisement,
}

/// The series that an event belongs to.
#[derive(PartialEq, Clone, Debug)]
pub struct Series {
    pub id: u32,
    pub title: Option<String>,
    pub url: Option<String>,
}

} // verus!
