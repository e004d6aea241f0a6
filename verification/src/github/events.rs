//! Turning the activity feed, as the service sends it, into events.

use crate::github::models::{kind_named, opt_text, EventView, GithubEvent, GithubEventType};
use crate::text::same_text;
use crate::time::{rfc3339_instant, Instant, Timestamp};
use vstd::prelude::*;

verus! {

/// An item of the activity feed as it arrives: four texts, any of which
/// may be missing.
#[derive(Debug)]
pub struct RawEvent {
    pub id: Option<String>,
    pub event_type: Option<String>,
    pub repo_name: Option<String>,
    pub created_at: Option<String>,
}

/// What a `RawEvent` stands for.
pub struct RawEventView {
    pub id: Option<Seq<char>>,
    pub event_type: Option<Seq<char>>,
    pub repo_name: Option<Seq<char>>,
    pub created_at: Option<Seq<char>>,
}

impl View for RawEvent {
    type V = RawEventView;

    open spec fn view(&self) -> RawEventView {
        RawEventView {
            id: opt_text(self.id),
            event_type: opt_text(self.event_type),
            repo_name: opt_text(self.repo_name),
            created_at: opt_text(self.created_at),
        }
    }
}

impl DeepView for RawEvent {
    type V = RawEventView;

    open spec fn deep_view(&self) -> RawEventView {
        self@
    }
}

/// Whether one of `events` has the identifier `id`.
pub open spec fn seen(events: Seq<EventView>, id: Seq<char>) -> bool {
    exists|i: int| 0 <= i < events.len() && #[trigger] events[i].id == id
}

/// The event with the given texts that happened at `at`. It is new where
/// none of `previous` has its identifier.
pub open spec fn observed(
    id: Seq<char>,
    event_type: Seq<char>,
    repo_name: Seq<char>,
    at: Instant,
    previous: Seq<EventView>,
) -> EventView {
    EventView {
        id,
        event_type: kind_named(event_type),
        repo_name,
        created_at: at,
        is_new: !seen(previous, id),
    }
}

/// The event that a feed item gives: none where one of the four texts is
/// missing or the time of creation is no RFC 3339 date and time.
pub open spec fn event_from_raw(raw: RawEventView, previous: Seq<EventView>) -> Option<EventView> {
    if raw.id is Some && raw.event_type is Some && raw.repo_name is Some && raw.created_at is Some {
        match rfc3339_instant(raw.created_at->0) {
            Some((secs, nanos)) => Some(
                observed(
                    raw.id->0,
                    raw.event_type->0,
                    raw.repo_name->0,
                    Instant { secs, nanos },
                    previous,
                ),
            ),
            None => None,
        }
    } else {
        None
    }
}

/// The events that the feed items give, in the order of the feed.
pub open spec fn events_from_raw(raws: Seq<RawEventView>, previous: Seq<EventView>) -> Seq<
    EventView,
>
    decreases raws.len(),
{
    if raws.len() == 0 {
        Seq::empty()
    } else {
        let before = events_from_raw(raws.drop_last(), previous);
        match event_from_raw(raws.last(), previous) {
            Some(event) => before.push(event),
            None => before,
        }
    }
}

/// Whether one of `events` has the identifier `id`.
pub fn was_seen(events: &Vec<GithubEvent>, id: &str) -> (r: bool)
    ensures
        r == seen(events.deep_view(), id@),
{
    let ghost all = events.deep_view();
    let mut i: usize = 0;
    while i < events.len()
        invariant
            i <= events.len(),
            all == events.deep_view(),
            forall|j: int| 0 <= j < i ==> all[j].id != id@,
        decreases events.len() - i,
    {
        if same_text(events[i].id.as_str(), id) {
            assert(all[i as int].id == id@);
            return true;
        }
        i += 1;
    }
    false
}

impl GithubEvent {
    /// The event with the given texts that happened at `created_at`, marked
    /// new where `previous` does not hold its identifier.
    pub fn observe(
        id: &str,
        event_type: &str,
        repo_name: &str,
        created_at: Timestamp,
        previous: &Vec<GithubEvent>,
    ) -> (r: GithubEvent)
        ensures
            r@ == observed(id@, event_type@, repo_name@, created_at@, previous.deep_view()),
    {
        let is_new = !was_seen(previous, id);
        GithubEvent {
            id: String::from_str(id),
            event_type: GithubEventType::from_str(event_type),
            repo_name: String::from_str(repo_name),
            created_at,
            is_new,
        }
    }

    /// The event that a feed item gives, if it gives one.
    pub fn from_raw(raw: &RawEvent, previous: &Vec<GithubEvent>) -> (r: Option<GithubEvent>)
        ensures
            match r {
                Some(event) => event_from_raw(raw@, previous.deep_view()) == Some(event@),
                None => event_from_raw(raw@, previous.deep_view()) is None,
            },
    {
        match (&raw.id, &raw.event_type, &raw.repo_name, &raw.created_at) {
            (Some(id), Some(event_type), Some(repo_name), Some(created_at)) => {
                match Timestamp::parse_rfc3339(created_at.as_str()) {
                    Some(at) => Some(
                        GithubEvent::observe(
                            id.as_str(),
                            event_type.as_str(),
                            repo_name.as_str(),
                            at,
                            previous,
                        ),
                    ),
                    None => None,
                }
            },
            _ => None,
        }
    }
}

/// The events of a feed, each marked new or not against the events of
/// the refresh before.
pub fn assemble_events(raws: &Vec<RawEvent>, previous: &Vec<GithubEvent>) -> (r: Vec<GithubEvent>)
    ensures
        r.deep_view() == events_from_raw(raws.deep_view(), previous.deep_view()),
{
    let ghost feed = raws.deep_view();
    let ghost before = previous.deep_view();
    let mut events: Vec<GithubEvent> = Vec::new();
    let mut i: usize = 0;
    assert(events.deep_view() =~= events_from_raw(feed.take(0), before));
    while i < raws.len()
        invariant
            i <= raws.len(),
            feed == raws.deep_view(),
            before == previous.deep_view(),
            events.deep_view() == events_from_raw(feed.take(i as int), before),
        decreases raws.len() - i,
    {
        proof {
            let next = feed.take(i + 1);
            assert(next.drop_last() =~= feed.take(i as int));
            assert(next.last() == raws[i as int]@);
        }
        let ghost held = events.deep_view();
        match GithubEvent::from_raw(&raws[i], previous) {
            Some(event) => {
                events.push(event);
                assert(events.deep_view() =~= held.push(event@));
            },
            None => {},
        }
        i += 1;
    }
    assert(feed.take(i as int) =~= feed);
    events
}

} // verus!
