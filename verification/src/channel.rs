//! The per-invocation event channel: an ordered, one-way conduit from the
//! handler of one invocation to the one subscriber that asked for it.
//!
//! The channel buffers what was sent until the subscriber takes it. It sets no
//! bound of its own on that buffer: a producer that must not run ahead of its
//! consumer sends one event at a time and lets the consumer take it before the
//! next (see `DownloadSession::step`), so that at most one event is ever
//! waiting.

use std::collections::VecDeque;
use vstd::prelude::*;

verus! {

/// The failure of a `send`: the channel was closed, by the subscriber going
/// away or by an earlier `close`. It is an ordinary result, never a panic.
#[derive(Debug, Clone, Copy, PartialEq, Eq)]
pub struct ChannelClosed;

/// An ordered stream of events with one producer and one consumer.
///
/// Its model is the history of the stream: everything that was ever accepted
/// by `send`, in order (`sent`), and everything that was handed to the
/// subscriber by `recv`, in order (`received`). What was received is at every
/// moment the front part of what was sent, so nothing is dropped, repeated or
/// reordered on the way.
pub struct Channel<T> {
    queue: VecDeque<T>,
    closed: bool,
    received: Ghost<Seq<T>>,
}

impl<T> Channel<T> {
    /// Every event that the channel accepted, in the order of the `send` calls.
    pub closed spec fn sent(&self) -> Seq<T> {
        self.received@ + self.queue@
    }

    /// Every event that the subscriber has taken, in the order it took them.
    pub closed spec fn received(&self) -> Seq<T> {
        self.received@
    }

    /// Whether the channel is terminal.
    pub closed spec fn closed(&self) -> bool {
        self.closed
    }

    /// What was sent and not yet taken, oldest first.
    pub open spec fn pending(&self) -> Seq<T> {
        self.sent().skip(self.received().len() as int)
    }

    /// The subscriber has seen the front part of what was sent, in the same
    /// order, and the rest is waiting: no event was dropped, none delivered
    /// twice, none out of turn.
    pub proof fn lemma_delivery_in_order(&self)
        ensures
            self.received().is_prefix_of(self.sent()),
            self.sent() == self.received() + self.pending(),
    {
        assert(self.pending() =~= self.queue@);
    }

    /// Opens a channel for one invocation: nothing sent, nothing received, not
    /// closed.
    pub fn open() -> (channel: Self)
        ensures
            channel.sent() == Seq::<T>::empty(),
            channel.received() == Seq::<T>::empty(),
            !channel.closed(),
    {
        Channel { queue: VecDeque::new(), closed: false, received: Ghost(Seq::empty()) }
    }

    /// Whether the channel is terminal, so that every further `send` fails.
    pub fn is_closed(&self) -> (closed: bool)
        ensures
            closed == self.closed(),
    {
        self.closed
    }

    /// The number of events that wait for the subscriber.
    pub fn pending_len(&self) -> (n: usize)
        ensures
            n == self.pending().len(),
    {
        proof {
            assert(self.pending() =~= self.queue@);
        }
        self.queue.len()
    }

    /// Appends `event` to the stream. On a closed channel it fails with
    /// [`ChannelClosed`] and changes nothing; on an open one it always
    /// succeeds, and the event becomes the last of what was sent.
    pub fn send(&mut self, event: T) -> (outcome: Result<(), ChannelClosed>)
        ensures
            final(self).received() == old(self).received(),
            final(self).closed() == old(self).closed(),
            old(self).closed() ==> outcome is Err && final(self).sent() == old(self).sent(),
            !old(self).closed() ==> outcome is Ok && final(self).sent() == old(self).sent().push(
                event,
            ),
    {
        if self.closed {
            return Err(ChannelClosed);
        }
        self.queue.push_back(event);
        proof {
            assert(final(self).sent() =~= old(self).sent().push(event));
        }
        Ok(())
    }

    /// Marks the channel terminal. What was sent before stays available to the
    /// subscriber; every later `send` fails. Closing twice is the same as
    /// closing once.
    pub fn close(&mut self)
        ensures
            final(self).closed(),
            final(self).sent() == old(self).sent(),
            final(self).received() == old(self).received(),
    {
        self.closed = true;
    }

    /// Takes the oldest event that waits, if there is one. The subscriber gets
    /// the events in the order in which they were sent, each exactly once.
    pub fn recv(&mut self) -> (event: Option<T>)
        ensures
            final(self).sent() == old(self).sent(),
            final(self).closed() == old(self).closed(),
            match event {
                Some(e) => {
                    &&& old(self).pending().len() > 0
                    &&& e == old(self).pending()[0]
                    &&& final(self).received() == old(self).received().push(e)
                },
                None => {
                    &&& old(self).pending().len() == 0
                    &&& final(self).received() == old(self).received()
                },
            },
    {
        proof {
            assert(self.pending() =~= self.queue@);
        }
        let event = self.queue.pop_front();
        if let Some(e) = &event {
            self.received = Ghost(self.received@.push(*e));
        }
        proof {
            assert(final(self).sent() =~= old(self).sent());
        }
        event
    }

    /// Takes everything that waits, oldest first.
    pub fn drain(&mut self) -> (events: Vec<T>)
        ensures
            events@ == old(self).pending(),
            final(self).sent() == old(self).sent(),
            final(self).received() == old(self).sent(),
            final(self).closed() == old(self).closed(),
    {
        let mut events: Vec<T> = Vec::new();
        proof {
            old(self).lemma_delivery_in_order();
        }
        loop
            invariant
                self.sent() == old(self).sent(),
                self.closed() == old(self).closed(),
                self.received() == old(self).received() + events@,
                old(self).sent() == old(self).received() + old(self).pending(),
            ensures
                self.sent() == old(self).sent(),
                self.closed() == old(self).closed(),
                self.received() == old(self).sent(),
                events@ == old(self).pending(),
            decreases self.pending().len(),
        {
            proof {
                self.lemma_delivery_in_order();
            }
            match self.recv() {
                Some(e) => {
                    events.push(e);
                    proof {
                        assert(self.received() =~= old(self).received() + events@);
                        self.lemma_delivery_in_order();
                        assert(self.pending().len() + self.received().len() == self.sent().len());
                    }
                },
                None => {
                    proof {
                        assert(self.pending() =~= Seq::<T>::empty());
                        assert(self.sent() =~= self.received());
                        assert(events@ =~= old(self).pending());
                    }
                    break ;
                },
            }
        }
        events
    }
}

} // verus!
