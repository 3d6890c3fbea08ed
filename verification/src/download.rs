//! The download handler: a state machine that emits the lifecycle of one
//! download, one event at a time, and the drivers that run it over a channel.

use crate::channel::{Channel, ChannelClosed};
use crate::event::{
    delivered_total, is_completed_session, is_open_session, views, DownloadEvent,
    DownloadEventView,
};
use crate::lifecycle::{
    lemma_delivered_by_prefix, lemma_lifecycle_delivers_content_length,
    lemma_lifecycle_is_completed_session, lemma_lifecycle_prefix_is_open_session,
    lemma_total_take_bounded, lemma_total_take_next, lifecycle, total,
};
use vstd::prelude::*;

verus! {

/// Where a session stands in its life.
#[derive(Debug, Clone, Copy, PartialEq, Eq, Structural)]
pub enum Phase {
    /// Nothing was emitted yet.
    Idle,
    /// `Started` was emitted and no `Progress` yet.
    Started,
    /// At least one `Progress` was emitted.
    Progressing,
    /// `Finished` was emitted. Terminal.
    Finished,
    /// The subscriber went away before `Finished`. Terminal.
    Aborted,
}

/// The mathematical value of a [`DownloadSession`]: what it downloads, under
/// which identifier, in which chunks, how many events of its lifecycle it has
/// emitted, and whether it gave up.
pub ghost struct SessionView {
    pub url: Seq<char>,
    pub session_id: u64,
    pub chunks: Seq<u64>,
    pub emitted: nat,
    pub aborted: bool,
}

impl SessionView {
    /// The content length fits the machine, the session has emitted no more
    /// than its lifecycle holds, and a session that gave up never finished.
    pub open spec fn wf(self) -> bool {
        &&& total(self.chunks) <= u64::MAX
        &&& self.emitted <= self.chunks.len() + 2
        &&& self.aborted ==> self.emitted < self.chunks.len() + 2
    }

    /// The bytes that the session announces in its `Started`.
    pub open spec fn content_length(self) -> nat {
        total(self.chunks)
    }

    /// Every event of the session, had it run to its end.
    pub open spec fn lifecycle(self) -> Seq<DownloadEventView> {
        lifecycle(self.url, self.session_id, self.chunks)
    }

    /// The events emitted so far.
    pub open spec fn emitted_events(self) -> Seq<DownloadEventView> {
        self.lifecycle().take(self.emitted as int)
    }

    /// The events still to come, if the session is not cut short.
    pub open spec fn remaining_events(self) -> Seq<DownloadEventView> {
        self.lifecycle().skip(self.emitted as int)
    }

    /// The bytes that the emitted `Progress` events report.
    pub open spec fn bytes_delivered(self) -> nat {
        delivered_total(self.emitted_events())
    }

    /// Whether `Finished` was emitted.
    pub open spec fn finished(self) -> bool {
        self.emitted == self.chunks.len() + 2
    }

    /// Whether the session will emit nothing more.
    pub open spec fn is_terminal(self) -> bool {
        self.aborted || self.finished()
    }

    /// Where the session stands.
    pub open spec fn phase(self) -> Phase {
        if self.aborted {
            Phase::Aborted
        } else if self.emitted == 0 {
            Phase::Idle
        } else if self.finished() {
            Phase::Finished
        } else if self.emitted == 1 {
            Phase::Started
        } else {
            Phase::Progressing
        }
    }

    /// The session after one more event went out.
    pub open spec fn advanced(self) -> SessionView {
        SessionView { emitted: self.emitted + 1, ..self }
    }

    /// The session after it gave up.
    pub open spec fn gave_up(self) -> SessionView {
        SessionView { aborted: true, ..self }
    }

    /// The session after everything that remained went out.
    pub open spec fn completed(self) -> SessionView {
        SessionView { emitted: self.chunks.len() + 2, ..self }
    }

    /// Every session that emitted its `Finished` has emitted the stream of a
    /// completed session: one `Started`, then `Progress` events alone, then
    /// one `Finished`, and the chunk lengths add up to the content length that
    /// `Started` announced.
    pub proof fn lemma_finished_session_is_completed(self)
        requires
            self.wf(),
            self.finished(),
        ensures
            is_completed_session(self.emitted_events()),
            self.emitted_events() == self.lifecycle(),
            self.bytes_delivered() == self.content_length(),
            self.emitted_events()[0] == (DownloadEventView::Started {
                url: self.url,
                session_id: self.session_id,
                content_length: self.content_length() as u64,
            }),
    {
        assert(self.emitted_events() =~= self.lifecycle());
        lemma_lifecycle_is_completed_session(self.url, self.session_id, self.chunks);
        lemma_lifecycle_delivers_content_length(self.url, self.session_id, self.chunks);
    }

    /// Every session that has not emitted its `Finished`, whether it still
    /// runs or gave up, has emitted an open session: nothing, or `Started`
    /// and then `Progress` events alone, which report no more bytes than the
    /// content length.
    pub proof fn lemma_unfinished_session_is_open(self)
        requires
            self.wf(),
            !self.finished(),
        ensures
            is_open_session(self.emitted_events()),
            self.bytes_delivered() <= self.content_length(),
            forall|i: int|
                0 <= i < self.emitted_events().len() ==> !(
                #[trigger] self.emitted_events()[i] is Finished),
    {
        lemma_lifecycle_prefix_is_open_session(
            self.url,
            self.session_id,
            self.chunks,
            self.emitted as int,
        );
        if self.emitted > 0 {
            lemma_delivered_by_prefix(self.url, self.session_id, self.chunks, self.emitted as int);
            lemma_total_take_bounded(self.chunks, self.emitted as int - 1);
        }
    }
}

/// The chunk lengths of the simulated transfer.
pub open spec fn simulated_chunks() -> Seq<u64> {
    seq![15u64, 150u64, 35u64, 500u64, 300u64]
}

/// The simulated transfer is one of 1000 bytes.
pub proof fn lemma_simulated_total()
    ensures
        total(simulated_chunks()) == 1000,
{
    let c = simulated_chunks();
    assert(c.take(0) =~= Seq::<u64>::empty());
    lemma_total_take_next(c, 0);
    lemma_total_take_next(c, 1);
    lemma_total_take_next(c, 2);
    lemma_total_take_next(c, 3);
    lemma_total_take_next(c, 4);
    assert(c.take(5) =~= c);
}

/// Adds up chunk lengths. `None` exactly when the sum does not fit in a `u64`.
pub fn checked_total(chunks: &Vec<u64>) -> (sum: Option<u64>)
    ensures
        match sum {
            Some(t) => t == total(chunks@),
            None => total(chunks@) > u64::MAX,
        },
{
    let mut sum: u64 = 0;
    let mut i: usize = 0;
    proof {
        assert(chunks@.take(0) =~= Seq::<u64>::empty());
    }
    while i < chunks.len()
        invariant
            0 <= i <= chunks.len(),
            sum == total(chunks@.take(i as int)),
        decreases chunks.len() - i,
    {
        proof {
            lemma_total_take_next(chunks@, i as int);
            lemma_total_take_bounded(chunks@, i as int + 1);
        }
        match sum.checked_add(chunks[i]) {
            Some(next) => {
                sum = next;
            },
            None => {
                return None;
            },
        }
        i += 1;
    }
    proof {
        assert(chunks@.take(i as int) =~= chunks@);
    }
    Some(sum)
}

/// How far a session has come: whether `Started` went out, how many `Progress`
/// events followed, the bytes they reported, and whether `Finished` went out.
#[derive(Clone, Copy)]
struct Cursor {
    started: bool,
    next_chunk: usize,
    delivered: u64,
    finished: bool,
}

/// One download: its plan (url, identifier, chunks) and how far it has come.
///
/// The session is a state machine that is driven from outside. `next_event`
/// says what is to be sent next; the driver sends it and reports back with
/// `advance` when the subscriber took it, or with `abort` when the subscriber
/// is gone. `step` and `run` are such drivers for a [`Channel`].
pub struct DownloadSession {
    url: String,
    session_id: u64,
    content_length: u64,
    chunks: Vec<u64>,
    cursor: Cursor,
    aborted: bool,
}

impl View for DownloadSession {
    type V = SessionView;

    closed spec fn view(&self) -> SessionView {
        SessionView {
            url: self.url@,
            session_id: self.session_id,
            chunks: self.chunks@,
            emitted: if !self.cursor.started {
                0
            } else if !self.cursor.finished {
                (1 + self.cursor.next_chunk) as nat
            } else {
                self.chunks@.len() + 2
            },
            aborted: self.aborted,
        }
    }
}

impl DownloadSession {
    #[verifier::type_invariant]
    spec fn inv(&self) -> bool {
        &&& self.content_length == total(self.chunks@)
        &&& self.cursor.next_chunk <= self.chunks@.len()
        &&& !self.cursor.started ==> self.cursor.next_chunk == 0 && !self.cursor.finished
        &&& self.cursor.finished ==> self.cursor.next_chunk == self.chunks@.len()
        &&& self.cursor.delivered == total(self.chunks@.take(self.cursor.next_chunk as int))
        &&& self.aborted ==> !self.cursor.finished
    }

    /// Plans the download of `url` under `session_id`, delivered in the given
    /// chunks; the content length is their sum. Nothing is emitted yet. The
    /// url is taken as it is, empty or malformed as it may be. `None` exactly
    /// when the content length does not fit in a `u64`.
    pub fn new(url: String, session_id: u64, chunks: Vec<u64>) -> (session: Option<Self>)
        ensures
            match session {
                Some(s) => {
                    &&& s@ == (SessionView {
                        url: url@,
                        session_id,
                        chunks: chunks@,
                        emitted: 0,
                        aborted: false,
                    })
                    &&& s@.wf()
                },
                None => total(chunks@) > u64::MAX,
            },
    {
        match checked_total(&chunks) {
            Some(content_length) => {
                proof {
                    assert(chunks@.take(0) =~= Seq::<u64>::empty());
                }
                Some(
                    DownloadSession {
                        url,
                        session_id,
                        content_length,
                        chunks,
                        cursor: Cursor {
                            started: false,
                            next_chunk: 0,
                            delivered: 0,
                            finished: false,
                        },
                        aborted: false,
                    },
                )
            },
            None => None,
        }
    }

    /// Plans the simulated download of `url` under `session_id`: 1000 bytes in
    /// the chunks 15, 150, 35, 500 and 300.
    pub fn simulated(url: String, session_id: u64) -> (session: Self)
        ensures
            session@ == (SessionView {
                url: url@,
                session_id,
                chunks: simulated_chunks(),
                emitted: 0,
                aborted: false,
            }),
            session@.wf(),
    {
        let chunks: Vec<u64> = vec![15, 150, 35, 500, 300];
        proof {
            assert(chunks@ =~= simulated_chunks());
            lemma_simulated_total();
            assert(chunks@.take(0) =~= Seq::<u64>::empty());
        }
        DownloadSession {
            url,
            session_id,
            content_length: 1000,
            chunks,
            cursor: Cursor { started: false, next_chunk: 0, delivered: 0, finished: false },
            aborted: false,
        }
    }

    /// What is downloaded.
    pub fn url(&self) -> (url: &str)
        ensures
            url@ == self@.url,
    {
        self.url.as_str()
    }

    /// The identifier of the session.
    pub fn session_id(&self) -> (id: u64)
        ensures
            id == self@.session_id,
    {
        self.session_id
    }

    /// The bytes that the session announces in its `Started`.
    pub fn content_length(&self) -> (length: u64)
        ensures
            length == self@.content_length(),
    {
        proof {
            use_type_invariant(self);
        }
        self.content_length
    }

    /// The bytes that the `Progress` events emitted so far report. It never
    /// exceeds the content length, and equals it once the session finished.
    pub fn bytes_delivered(&self) -> (bytes: u64)
        ensures
            bytes == self@.bytes_delivered(),
            bytes <= self@.content_length(),
            self@.finished() ==> bytes == self@.content_length(),
    {
        proof {
            use_type_invariant(self);
            let v = self@;
            lemma_total_take_bounded(v.chunks, self.cursor.next_chunk as int);
            if v.finished() {
                assert(v.emitted_events() =~= v.lifecycle());
                lemma_lifecycle_delivers_content_length(v.url, v.session_id, v.chunks);
                assert(v.chunks.take(v.chunks.len() as int) =~= v.chunks);
            } else {
                lemma_delivered_by_prefix(v.url, v.session_id, v.chunks, v.emitted as int);
                assert(v.chunks.take(0) =~= Seq::<u64>::empty());
            }
        }
        self.cursor.delivered
    }

    /// Where the session stands.
    pub fn phase(&self) -> (phase: Phase)
        ensures
            phase == self@.phase(),
            self@.wf(),
    {
        proof {
            use_type_invariant(self);
        }
        if self.aborted {
            Phase::Aborted
        } else if !self.cursor.started {
            Phase::Idle
        } else if self.cursor.finished {
            Phase::Finished
        } else if self.cursor.next_chunk == 0 {
            Phase::Started
        } else {
            Phase::Progressing
        }
    }

    /// Whether the session will emit nothing more: it finished, or it gave up.
    pub fn is_terminal(&self) -> (terminal: bool)
        ensures
            terminal == self@.is_terminal(),
            self@.wf(),
    {
        proof {
            use_type_invariant(self);
        }
        self.aborted || self.cursor.finished
    }

    /// The event that is to be sent next: the one that follows what was
    /// emitted so far in the lifecycle. `None` exactly when the session is
    /// terminal. The session itself does not change: it moves on when the
    /// driver reports with `advance` that the event went out.
    pub fn next_event(&self) -> (event: Option<DownloadEvent>)
        ensures
            self@.wf(),
            match event {
                Some(e) => !self@.is_terminal() && e@ == self@.lifecycle()[self@.emitted as int],
                None => self@.is_terminal(),
            },
    {
        proof {
            use_type_invariant(self);
        }
        if self.aborted || self.cursor.finished {
            None
        } else if !self.cursor.started {
            Some(
                DownloadEvent::Started {
                    url: self.url.clone(),
                    session_id: self.session_id,
                    content_length: self.content_length,
                },
            )
        } else if self.cursor.next_chunk < self.chunks.len() {
            Some(
                DownloadEvent::Progress {
                    session_id: self.session_id,
                    chunk_length: self.chunks[self.cursor.next_chunk],
                },
            )
        } else {
            Some(DownloadEvent::Finished { session_id: self.session_id })
        }
    }

    /// Records that the event given by `next_event` went out: the session has
    /// emitted one event more. A terminal session stays as it is.
    pub fn advance(&mut self)
        ensures
            final(self)@.wf(),
            old(self)@.is_terminal() ==> final(self)@ == old(self)@,
            !old(self)@.is_terminal() ==> final(self)@ == old(self)@.advanced(),
    {
        proof {
            use_type_invariant(&*self);
        }
        let cursor = self.cursor;
        if self.aborted || cursor.finished {
        } else if !cursor.started {
            self.cursor = Cursor { started: true, ..cursor };
        } else if cursor.next_chunk < self.chunks.len() {
            proof {
                lemma_total_take_next(self.chunks@, cursor.next_chunk as int);
                lemma_total_take_bounded(self.chunks@, cursor.next_chunk as int + 1);
            }
            let chunk: u64 = self.chunks[cursor.next_chunk];
            self.cursor = Cursor {
                next_chunk: cursor.next_chunk + 1,
                delivered: cursor.delivered + chunk,
                ..cursor
            };
        } else {
            self.cursor = Cursor { finished: true, ..cursor };
        }
    }

    /// Records that the subscriber is gone: the session gives up and will emit
    /// nothing more. A session that already finished stays finished.
    pub fn abort(&mut self)
        ensures
            final(self)@.wf(),
            old(self)@.finished() ==> final(self)@ == old(self)@,
            !old(self)@.finished() ==> final(self)@ == old(self)@.gave_up(),
    {
        proof {
            use_type_invariant(&*self);
        }
        if !self.cursor.finished {
            self.aborted = true;
        }
    }
}

impl DownloadSession {
    /// Takes one step of the lifecycle over `channel`: sends the next event
    /// and, if the channel took it, moves on.
    ///
    /// A session that finished has nothing to send and reports
    /// `Ok(Phase::Finished)`. A session that gave up reports
    /// [`ChannelClosed`] again. Otherwise the outcome is that of the send: on
    /// an open channel the event becomes the last one sent and the phase
    /// reached is returned; on a closed one nothing is sent, the session gives
    /// up, and the failure is returned as a value.
    pub fn step(&mut self, channel: &mut Channel<DownloadEvent>) -> (outcome: Result<
        Phase,
        ChannelClosed,
    >)
        ensures
            final(self)@.wf(),
            final(channel).received() == old(channel).received(),
            final(channel).closed() == old(channel).closed(),
            old(self)@.finished() ==> {
                &&& outcome == Ok::<Phase, ChannelClosed>(Phase::Finished)
                &&& final(self)@ == old(self)@
                &&& final(channel).sent() == old(channel).sent()
            },
            old(self)@.aborted ==> {
                &&& outcome is Err
                &&& final(self)@ == old(self)@
                &&& final(channel).sent() == old(channel).sent()
            },
            !old(self)@.is_terminal() && old(channel).closed() ==> {
                &&& outcome is Err
                &&& final(self)@ == old(self)@.gave_up()
                &&& final(channel).sent() == old(channel).sent()
            },
            !old(self)@.is_terminal() && !old(channel).closed() ==> {
                &&& outcome == Ok::<Phase, ChannelClosed>(final(self)@.phase())
                &&& final(self)@ == old(self)@.advanced()
                &&& views(final(channel).sent()) == views(old(channel).sent()).push(
                    old(self)@.lifecycle()[old(self)@.emitted as int],
                )
            },
    {
        match self.next_event() {
            None => {
                if self.aborted {
                    Err(ChannelClosed)
                } else {
                    Ok(self.phase())
                }
            },
            Some(event) => {
                let ghost sent_before = channel.sent();
                match channel.send(event) {
                    Ok(()) => {
                        self.advance();
                        proof {
                            assert(views(sent_before.push(event)) =~= views(sent_before).push(
                                event@,
                            ));
                        }
                        Ok(self.phase())
                    },
                    Err(closed) => {
                        self.abort();
                        Err(closed)
                    },
                }
            },
        }
    }

    /// Runs the session over `channel` until it is terminal.
    ///
    /// On an open channel everything that remained of the lifecycle is sent,
    /// in order, and the session finishes. On a closed channel a session that
    /// is not yet finished sends nothing, gives up and reports
    /// [`ChannelClosed`]; so does a session that had given up before.
    pub fn run(&mut self, channel: &mut Channel<DownloadEvent>) -> (outcome: Result<
        (),
        ChannelClosed,
    >)
        ensures
            final(self)@.wf(),
            final(channel).received() == old(channel).received(),
            final(channel).closed() == old(channel).closed(),
            old(self)@.aborted ==> {
                &&& outcome is Err
                &&& final(self)@ == old(self)@
                &&& final(channel).sent() == old(channel).sent()
            },
            !old(self)@.is_terminal() && old(channel).closed() ==> {
                &&& outcome is Err
                &&& final(self)@ == old(self)@.gave_up()
                &&& final(channel).sent() == old(channel).sent()
            },
            !old(self)@.aborted && (old(self)@.finished() || !old(channel).closed()) ==> {
                &&& outcome is Ok
                &&& final(self)@ == old(self)@.completed()
                &&& views(final(channel).sent()) == views(old(channel).sent())
                    + old(self)@.remaining_events()
            },
    {
        let ghost start = self@;
        let ghost sent_before = views(channel.sent());
        proof {
            use_type_invariant(&*self);
        }
        if self.aborted {
            return Err(ChannelClosed);
        }
        proof {
            assert(start.lifecycle().subrange(start.emitted as int, start.emitted as int)
                =~= Seq::<DownloadEventView>::empty());
            assert(sent_before + Seq::<DownloadEventView>::empty() =~= sent_before);
        }
        while !self.is_terminal()
            invariant
                !self@.aborted,
                self@.wf(),
                start.wf(),
                start.emitted <= self@.emitted,
                self@ == (SessionView { emitted: self@.emitted, ..start }),
                channel.received() == old(channel).received(),
                channel.closed() == old(channel).closed(),
                old(channel).closed() ==> self@.emitted == start.emitted && channel.sent() == old(
                    channel,
                ).sent(),
                views(channel.sent()) == sent_before + start.lifecycle().subrange(
                    start.emitted as int,
                    self@.emitted as int,
                ),
                start == old(self)@,
                sent_before == views(old(channel).sent()),
            decreases self@.chunks.len() + 2 - self@.emitted,
        {
            let ghost emitted = self@.emitted as int;
            match self.step(channel) {
                Ok(_) => {
                    proof {
                        assert((sent_before + start.lifecycle().subrange(
                            start.emitted as int,
                            emitted,
                        )).push(start.lifecycle()[emitted]) =~= sent_before
                            + start.lifecycle().subrange(start.emitted as int, emitted + 1));
                    }
                },
                Err(closed) => {
                    return Err(closed);
                },
            }
        }
        proof {
            assert(start.lifecycle().subrange(start.emitted as int, self@.emitted as int)
                =~= start.remaining_events());
        }
        Ok(())
    }
}

/// Handles one invocation of the download operation: emits the lifecycle of
/// the simulated download of `url`, under `session_id`, onto `on_event`.
///
/// The result is conveyed by the events alone. On an open channel the handler
/// sends `Started`, one `Progress` for each simulated chunk and `Finished`, in
/// that order, after whatever the channel held before. On a closed channel it
/// sends nothing and reports [`ChannelClosed`].
pub fn download(url: String, session_id: u64, on_event: &mut Channel<DownloadEvent>) -> (outcome:
    Result<(), ChannelClosed>)
    ensures
        final(on_event).received() == old(on_event).received(),
        final(on_event).closed() == old(on_event).closed(),
        old(on_event).closed() ==> outcome is Err && final(on_event).sent() == old(on_event).sent(),
        !old(on_event).closed() ==> outcome is Ok && views(final(on_event).sent()) == views(
            old(on_event).sent(),
        ) + lifecycle(url@, session_id, simulated_chunks()),
{
    let mut session = DownloadSession::simulated(url, session_id);
    proof {
        assert(session@.remaining_events() =~= session@.lifecycle());
    }
    session.run(on_event)
}

} // verus!
