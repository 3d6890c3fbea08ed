//! The event stream that one download produces, as a mathematical sequence,
//! and the laws that every such stream obeys.

use crate::event::{delivered_total, is_completed_session, is_open_session, DownloadEventView};
use vstd::prelude::*;

verus! {

/// The sum of a list of chunk lengths.
pub open spec fn total(chunks: Seq<u64>) -> nat
    decreases chunks.len(),
{
    if chunks.len() == 0 {
        0
    } else {
        total(chunks.drop_last()) + chunks.last() as nat
    }
}

/// The event at position `i` of the lifecycle of a download: `Started` at the
/// front, announcing the sum of the chunks as the content length, one
/// `Progress` for each chunk in turn, `Finished` at the back.
pub open spec fn lifecycle_event(
    url: Seq<char>,
    session_id: u64,
    chunks: Seq<u64>,
    i: int,
) -> DownloadEventView {
    if i <= 0 {
        DownloadEventView::Started { url, session_id, content_length: total(chunks) as u64 }
    } else if i <= chunks.len() {
        DownloadEventView::Progress { session_id, chunk_length: chunks[i - 1] }
    } else {
        DownloadEventView::Finished { session_id }
    }
}

/// The whole stream of a download that runs to its end.
pub open spec fn lifecycle(url: Seq<char>, session_id: u64, chunks: Seq<u64>) -> Seq<
    DownloadEventView,
> {
    Seq::new(chunks.len() + 2, |i: int| lifecycle_event(url, session_id, chunks, i))
}

/// Adding one more chunk adds its length to the sum.
pub proof fn lemma_total_take_next(chunks: Seq<u64>, k: int)
    requires
        0 <= k < chunks.len(),
    ensures
        total(chunks.take(k + 1)) == total(chunks.take(k)) + chunks[k] as nat,
{
    assert(chunks.take(k + 1).drop_last() =~= chunks.take(k));
}

/// The chunks up to any point add up to no more than all of them.
pub proof fn lemma_total_take_bounded(chunks: Seq<u64>, k: int)
    requires
        0 <= k <= chunks.len(),
    ensures
        total(chunks.take(k)) <= total(chunks),
    decreases chunks.len() - k,
{
    if k == chunks.len() {
        assert(chunks.take(k) =~= chunks);
    } else {
        lemma_total_take_next(chunks, k);
        lemma_total_take_bounded(chunks, k + 1);
    }
}

/// The bytes reported by the first `n` events of a lifecycle, for an `n` that
/// stops short of `Finished`: nothing before `Started`, and after it the sum
/// of the chunks whose `Progress` is among them.
pub proof fn lemma_delivered_by_prefix(url: Seq<char>, session_id: u64, chunks: Seq<u64>, n: int)
    requires
        0 <= n <= chunks.len() + 1,
    ensures
        delivered_total(lifecycle(url, session_id, chunks).take(n)) == if n == 0 {
            0
        } else {
            total(chunks.take(n - 1))
        },
    decreases n,
{
    let events = lifecycle(url, session_id, chunks);
    if n == 0 {
    } else {
        assert(events.take(n).drop_last() =~= events.take(n - 1));
        lemma_delivered_by_prefix(url, session_id, chunks, n - 1);
        if n == 1 {
            assert(chunks.take(0) =~= Seq::<u64>::empty());
        } else {
            lemma_total_take_next(chunks, n - 2);
        }
    }
}

/// A download that runs to its end reports exactly the bytes it announced: the
/// chunk lengths of its `Progress` events add up to the content length of its
/// `Started`.
pub proof fn lemma_lifecycle_delivers_content_length(
    url: Seq<char>,
    session_id: u64,
    chunks: Seq<u64>,
)
    requires
        total(chunks) <= u64::MAX,
    ensures
        delivered_total(lifecycle(url, session_id, chunks)) == total(chunks),
        lifecycle(url, session_id, chunks)[0] == (DownloadEventView::Started {
            url,
            session_id,
            content_length: total(chunks) as u64,
        }),
{
    let events = lifecycle(url, session_id, chunks);
    assert(events.drop_last() =~= events.take(chunks.len() as int + 1));
    lemma_delivered_by_prefix(url, session_id, chunks, chunks.len() as int + 1);
    assert(chunks.take(chunks.len() as int) =~= chunks);
}

/// The stream of a download that runs to its end is that of a completed
/// session: exactly one `Started` first, then `Progress` events alone, then
/// exactly one `Finished` last, all under the one session identifier, and the
/// chunk lengths add up to the announced content length.
pub proof fn lemma_lifecycle_is_completed_session(
    url: Seq<char>,
    session_id: u64,
    chunks: Seq<u64>,
)
    requires
        total(chunks) <= u64::MAX,
    ensures
        is_completed_session(lifecycle(url, session_id, chunks)),
{
    lemma_lifecycle_delivers_content_length(url, session_id, chunks);
}

/// Whatever a download has emitted before its `Finished` is an open session:
/// `Started` first, `Progress` events after it, and the bytes reported so far
/// never exceed the announced content length.
pub proof fn lemma_lifecycle_prefix_is_open_session(
    url: Seq<char>,
    session_id: u64,
    chunks: Seq<u64>,
    n: int,
)
    requires
        total(chunks) <= u64::MAX,
        0 <= n <= chunks.len() + 1,
    ensures
        is_open_session(lifecycle(url, session_id, chunks).take(n)),
{
    if n > 0 {
        lemma_delivered_by_prefix(url, session_id, chunks, n);
        lemma_total_take_bounded(chunks, n - 1);
    }
}

/// In a completed session `Started` and `Finished` occur once each: no event
/// but the first is a `Started`, and none but the last a `Finished`.
pub proof fn lemma_completed_session_has_one_start_and_one_end(events: Seq<DownloadEventView>)
    requires
        is_completed_session(events),
    ensures
        forall|i: int| 0 <= i < events.len() ==> (#[trigger] events[i] is Started <==> i == 0),
        forall|i: int|
            0 <= i < events.len() ==> (#[trigger] events[i] is Finished <==> i == events.len() - 1),
{
    assert forall|i: int| 0 <= i < events.len() implies (#[trigger] events[i] is Started <==> i
        == 0) by {
        if 0 < i < events.len() - 1 {
            assert(events[i] is Progress);
        }
    }
    assert forall|i: int| 0 <= i < events.len() implies (#[trigger] events[i] is Finished <==> i
        == events.len() - 1) by {
        if 0 < i < events.len() - 1 {
            assert(events[i] is Progress);
        }
    }
}

} // verus!
