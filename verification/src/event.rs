//! The typed notifications of a download and the shape of a well-formed
//! stream of them.

use vstd::prelude::*;

verus! {

/// One notification in the lifecycle of a download.
///
/// For one session the events come as exactly one `Started`, then zero or more
/// `Progress`, then exactly one `Finished`.
#[derive(Debug, PartialEq, Eq)]
pub enum DownloadEvent {
    /// The transfer began: what is fetched, under which session, and how many
    /// bytes are expected in all.
    Started { url: String, session_id: u64, content_length: u64 },
    /// One more chunk of the given length arrived.
    Progress { session_id: u64, chunk_length: u64 },
    /// The transfer is complete; nothing follows for this session.
    Finished { session_id: u64 },
}

/// The mathematical value of a [`DownloadEvent`]: the same variants, with the
/// url as a sequence of characters.
pub ghost enum DownloadEventView {
    Started { url: Seq<char>, session_id: u64, content_length: u64 },
    Progress { session_id: u64, chunk_length: u64 },
    Finished { session_id: u64 },
}

impl DownloadEventView {
    /// The session that the event belongs to.
    pub open spec fn session_id(self) -> u64 {
        match self {
            DownloadEventView::Started { session_id, .. } => session_id,
            DownloadEventView::Progress { session_id, .. } => session_id,
            DownloadEventView::Finished { session_id } => session_id,
        }
    }

    /// The bytes that the event reports as newly delivered: the chunk length of
    /// a `Progress`, nothing for the others.
    pub open spec fn delivered(self) -> nat {
        match self {
            DownloadEventView::Progress { chunk_length, .. } => chunk_length as nat,
            _ => 0,
        }
    }

    /// The discriminator under which the event travels.
    pub open spec fn tag(self) -> Seq<char> {
        match self {
            DownloadEventView::Started { .. } => "started"@,
            DownloadEventView::Progress { .. } => "progress"@,
            DownloadEventView::Finished { .. } => "finished"@,
        }
    }
}

impl View for DownloadEvent {
    type V = DownloadEventView;

    open spec fn view(&self) -> DownloadEventView {
        match self {
            DownloadEvent::Started { url, session_id, content_length } => DownloadEventView::Started {
                url: url@,
                session_id: *session_id,
                content_length: *content_length,
            },
            DownloadEvent::Progress { session_id, chunk_length } => DownloadEventView::Progress {
                session_id: *session_id,
                chunk_length: *chunk_length,
            },
            DownloadEvent::Finished { session_id } => DownloadEventView::Finished {
                session_id: *session_id,
            },
        }
    }
}

impl Clone for DownloadEvent {
    fn clone(&self) -> (copy: Self)
        ensures
            copy@ == self@,
    {
        match self {
            DownloadEvent::Started { url, session_id, content_length } => DownloadEvent::Started {
                url: url.clone(),
                session_id: *session_id,
                content_length: *content_length,
            },
            DownloadEvent::Progress { session_id, chunk_length } => DownloadEvent::Progress {
                session_id: *session_id,
                chunk_length: *chunk_length,
            },
            DownloadEvent::Finished { session_id } => DownloadEvent::Finished {
                session_id: *session_id,
            },
        }
    }
}

impl DownloadEvent {
    /// The session that the event belongs to.
    pub fn session_id(&self) -> (id: u64)
        ensures
            id == self@.session_id(),
    {
        match self {
            DownloadEvent::Started { session_id, .. } => *session_id,
            DownloadEvent::Progress { session_id, .. } => *session_id,
            DownloadEvent::Finished { session_id } => *session_id,
        }
    }

    /// The discriminator under which the event travels: `started`, `progress`
    /// or `finished`.
    pub fn tag(&self) -> (tag: &'static str)
        ensures
            tag@ == self@.tag(),
    {
        match self {
            DownloadEvent::Started { .. } => "started",
            DownloadEvent::Progress { .. } => "progress",
            DownloadEvent::Finished { .. } => "finished",
        }
    }
}

/// The views of a list of events, in order.
pub open spec fn views(events: Seq<DownloadEvent>) -> Seq<DownloadEventView> {
    events.map_values(|e: DownloadEvent| e@)
}

/// The bytes that a stream reports as delivered: the sum of the chunk lengths
/// of its `Progress` events.
pub open spec fn delivered_total(events: Seq<DownloadEventView>) -> nat
    decreases events.len(),
{
    if events.len() == 0 {
        0
    } else {
        delivered_total(events.drop_last()) + events.last().delivered()
    }
}

/// What a session may have emitted at any moment of its life: nothing yet, or
/// one `Started` followed by `Progress` events alone, all of one session, which
/// together report no more bytes than the `Started` announced.
pub open spec fn is_open_session(events: Seq<DownloadEventView>) -> bool {
    events.len() > 0 ==> {
        &&& events[0] is Started
        &&& forall|i: int| 0 < i < events.len() ==> #[trigger] events[i] is Progress
        &&& forall|i: int|
            0 <= i < events.len() ==> (#[trigger] events[i]).session_id() == events[0].session_id()
        &&& delivered_total(events) <= events[0]->content_length
    }
}

/// The stream of a completed session: one `Started`, then `Progress` events
/// alone, then one `Finished`, all of one session, the chunk lengths adding up
/// to the announced content length exactly.
pub open spec fn is_completed_session(events: Seq<DownloadEventView>) -> bool {
    &&& events.len() >= 2
    &&& events[0] is Started
    &&& events.last() is Finished
    &&& forall|i: int| 0 < i < events.len() - 1 ==> #[trigger] events[i] is Progress
    &&& forall|i: int|
        0 <= i < events.len() ==> (#[trigger] events[i]).session_id() == events[0].session_id()
    &&& delivered_total(events) == events[0]->content_length
}

} // verus!
