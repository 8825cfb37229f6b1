//! The ordered, unbounded queue of note events between capture and playback.
//!
//! Any number of producers may send; one consumer receives. Notes leave in
//! the order in which they entered, each exactly once. The queue only holds
//! the state: a consumer that wants to block waits outside and asks again.

use std::collections::VecDeque;
use vstd::prelude::*;
use crate::note::Note;

verus! {

/// A note that could not be sent, handed back to the sender.
#[derive(Clone, Copy, Debug, PartialEq, Eq, Structural)]
pub struct SendError(pub Note);

/// Why a receive returned no note.
#[derive(Clone, Copy, Debug, PartialEq, Eq, Structural)]
pub enum TryRecvError {
    /// Nothing is queued, but a producer may still send.
    Empty,
    /// Nothing is queued and nothing can arrive any more.
    Disconnected,
}

/// The mathematical state of a channel.
pub struct ChannelState {
    /// The notes that were sent and not yet received, oldest first.
    pub pending: Seq<Note>,
    /// The number of producers that are still alive.
    pub senders: nat,
    /// Whether the consumer is still alive.
    pub receiver_alive: bool,
}

impl ChannelState {
    /// A fresh channel: nothing queued, one producer, one consumer.
    pub open spec fn fresh() -> ChannelState {
        ChannelState { pending: Seq::empty(), senders: 1, receiver_alive: true }
    }

    /// Whether a send enqueues: a producer and the consumer are alive.
    pub open spec fn accepts(self) -> bool {
        self.receiver_alive && self.senders > 0
    }

    /// Whether nothing can arrive any more.
    pub open spec fn is_closed(self) -> bool {
        self.senders == 0 || !self.receiver_alive
    }

    /// The state after one send. A send that is not accepted changes nothing.
    pub open spec fn sent(self, note: Note) -> ChannelState {
        if self.accepts() {
            ChannelState { pending: self.pending.push(note), ..self }
        } else {
            self
        }
    }

    /// What one receive returns.
    pub open spec fn next(self) -> Result<Note, TryRecvError> {
        if self.pending.len() > 0 {
            Ok(self.pending[0])
        } else if self.is_closed() {
            Err(TryRecvError::Disconnected)
        } else {
            Err(TryRecvError::Empty)
        }
    }

    /// The state after one receive. A receive that returns no note changes
    /// nothing.
    pub open spec fn received(self) -> ChannelState {
        if self.pending.len() > 0 {
            ChannelState { pending: self.pending.skip(1), ..self }
        } else {
            self
        }
    }

    /// The state after sending `notes` one by one, first to last.
    pub open spec fn after_sends(self, notes: Seq<Note>) -> ChannelState
        decreases notes.len(),
    {
        if notes.len() == 0 {
            self
        } else {
            self.sent(notes[0]).after_sends(notes.skip(1))
        }
    }

    /// The state after `count` receives in a row.
    pub open spec fn after_recvs(self, count: nat) -> ChannelState
        decreases count,
    {
        if count == 0 {
            self
        } else {
            self.received().after_recvs((count - 1) as nat)
        }
    }
}

/// The channel that carries notes from the capture loop to the dispatcher.
pub struct NoteChannel {
    queue: VecDeque<Note>,
    senders: usize,
    receiver_alive: bool,
}

impl View for NoteChannel {
    type V = ChannelState;

    closed spec fn view(&self) -> ChannelState {
        ChannelState {
            pending: self.queue@,
            senders: self.senders as nat,
            receiver_alive: self.receiver_alive,
        }
    }
}

impl NoteChannel {
    /// Opens a channel with one producer and one consumer.
    pub fn new() -> (channel: NoteChannel)
        ensures
            channel@ == ChannelState::fresh(),
    {
        NoteChannel { queue: VecDeque::new(), senders: 1, receiver_alive: true }
    }

    /// Registers one more producer. This fails, and changes nothing, where
    /// no producer is left to register it or the count cannot grow.
    pub fn add_sender(&mut self) -> (added: bool)
        ensures
            added <==> 0 < old(self)@.senders < usize::MAX,
            added ==> final(self)@ == (ChannelState {
                senders: old(self)@.senders + 1,
                ..old(self)@
            }),
            !added ==> final(self)@ == old(self)@,
    {
        if self.senders > 0 && self.senders < usize::MAX {
            self.senders = self.senders + 1;
            true
        } else {
            false
        }
    }

    /// Takes one producer away. With the last one gone the channel is
    /// closed; what is queued can still be received.
    pub fn drop_sender(&mut self)
        ensures
            final(self)@ == (ChannelState {
                senders: if old(self)@.senders > 0 {
                    (old(self)@.senders - 1) as nat
                } else {
                    0
                },
                ..old(self)@
            }),
    {
        if self.senders > 0 {
            self.senders = self.senders - 1;
        }
    }

    /// Takes the consumer away. What was queued is dropped with it.
    pub fn drop_receiver(&mut self)
        ensures
            final(self)@ == (ChannelState {
                pending: Seq::empty(),
                receiver_alive: false,
                ..old(self)@
            }),
    {
        self.queue.clear();
        self.receiver_alive = false;
    }

    /// Enqueues `note` behind everything that is queued. This never blocks,
    /// and fails only where no producer or no consumer is alive: the note
    /// then comes back and the channel is unchanged.
    pub fn send(&mut self, note: Note) -> (sent: Result<(), SendError>)
        ensures
            sent.is_ok() <==> old(self)@.accepts(),
            sent.is_err() ==> sent == Err::<(), SendError>(SendError(note)),
            final(self)@ == old(self)@.sent(note),
    {
        if self.receiver_alive && self.senders > 0 {
            self.queue.push_back(note);
            Ok(())
        } else {
            Err(SendError(note))
        }
    }

    /// Takes the oldest queued note, if there is one. Otherwise says whether
    /// waiting can help (`Empty`) or not (`Disconnected`).
    pub fn try_recv(&mut self) -> (got: Result<Note, TryRecvError>)
        ensures
            got == old(self)@.next(),
            final(self)@ == old(self)@.received(),
    {
        match self.queue.pop_front() {
            Some(note) => Ok(note),
            None => {
                if self.senders == 0 || !self.receiver_alive {
                    Err(TryRecvError::Disconnected)
                } else {
                    Err(TryRecvError::Empty)
                }
            },
        }
    }

    /// Takes everything that is queued, oldest first.
    pub fn drain(&mut self) -> (notes: Vec<Note>)
        ensures
            notes@ == old(self)@.pending,
            final(self)@ == (ChannelState { pending: Seq::empty(), ..old(self)@ }),
    {
        let mut notes: Vec<Note> = Vec::new();
        while self.queue.len() > 0
            invariant
                notes@ + self.queue@ == old(self).queue@,
                self.senders == old(self).senders,
                self.receiver_alive == old(self).receiver_alive,
            decreases self.queue@.len(),
        {
            let ghost before = self.queue@;
            let ghost taken = notes@;
            let front = self.queue.pop_front();
            if let Some(note) = front {
                notes.push(note);
                assert(notes@ + self.queue@ =~= taken + before);
            }
        }
        assert(notes@ =~= notes@ + self.queue@);
        assert(self.queue@ =~= Seq::<Note>::empty());
        notes
    }

    /// The number of queued notes.
    pub fn len(&self) -> (count: usize)
        ensures
            count == self@.pending.len(),
    {
        self.queue.len()
    }

    /// Whether nothing is queued.
    pub fn is_empty(&self) -> (empty: bool)
        ensures
            empty <==> self@.pending.len() == 0,
    {
        self.queue.len() == 0
    }

    /// The number of producers that are alive.
    pub fn sender_count(&self) -> (count: usize)
        ensures
            count == self@.senders,
    {
        self.senders
    }

    /// Whether nothing can arrive any more.
    pub fn is_closed(&self) -> (closed: bool)
        ensures
            closed == self@.is_closed(),
    {
        self.senders == 0 || !self.receiver_alive
    }
}

/// Sending `notes` to a channel that accepts them appends them, in their
/// order, behind what was queued: nothing is lost, repeated or reordered.
pub proof fn lemma_sends_append(channel: ChannelState, notes: Seq<Note>)
    requires
        channel.accepts(),
    ensures
        channel.after_sends(notes) == (ChannelState {
            pending: channel.pending + notes,
            ..channel
        }),
    decreases notes.len(),
{
    if notes.len() == 0 {
        assert(channel.pending + notes =~= channel.pending);
    } else {
        let first = channel.sent(notes[0]);
        lemma_sends_append(first, notes.skip(1));
        assert(first.pending + notes.skip(1) =~= channel.pending + notes);
    }
}

/// Receiving `count` times, where that many notes are queued, removes the
/// `count` oldest and leaves the rest as it was.
pub proof fn lemma_recvs_take_front(channel: ChannelState, count: nat)
    requires
        count <= channel.pending.len(),
    ensures
        channel.after_recvs(count) == (ChannelState {
            pending: channel.pending.skip(count as int),
            ..channel
        }),
    decreases count,
{
    if count == 0 {
        assert(channel.pending.skip(0) =~= channel.pending);
    } else {
        let rest = channel.received();
        lemma_recvs_take_front(rest, (count - 1) as nat);
        assert(rest.pending.skip(count - 1) =~= channel.pending.skip(count as int));
    }
}

/// First in, first out. After `notes` were sent to an empty channel, the
/// receives return exactly these notes in the order of sending, and after
/// as many receives as there were sends nothing is left.
pub proof fn lemma_fifo(channel: ChannelState, notes: Seq<Note>)
    requires
        channel.accepts(),
        channel.pending.len() == 0,
    ensures
        forall|i: nat|
            i < notes.len() ==> #[trigger] channel.after_sends(notes).after_recvs(i).next() == Ok::<
                Note,
                TryRecvError,
            >(notes[i as int]),
        channel.after_sends(notes).after_recvs(notes.len()).pending.len() == 0,
        channel.after_sends(notes).after_recvs(notes.len()).next().is_err(),
{
    let full = channel.after_sends(notes);
    lemma_sends_append(channel, notes);
    assert(channel.pending + notes =~= notes);
    assert forall|i: nat| i < notes.len() implies #[trigger] full.after_recvs(i).next() == Ok::<
        Note,
        TryRecvError,
    >(notes[i as int]) by {
        lemma_recvs_take_front(full, i);
    }
    lemma_recvs_take_front(full, notes.len());
}

/// Closing loses nothing and is signalled once the queue has run dry: with
/// the last producer gone, each queued note is still received in turn, and
/// every receive after the last note is answered `Disconnected` and changes
/// nothing.
pub proof fn lemma_closed_after_drain(channel: ChannelState, count: nat)
    requires
        channel.is_closed(),
    ensures
        count < channel.pending.len() ==> channel.after_recvs(count).next() == Ok::<
            Note,
            TryRecvError,
        >(channel.pending[count as int]),
        count >= channel.pending.len() ==> channel.after_recvs(count).next() == Err::<
            Note,
            TryRecvError,
        >(TryRecvError::Disconnected),
        count >= channel.pending.len() ==> channel.after_recvs(count).received()
            == channel.after_recvs(count),
    decreases count,
{
    if count <= channel.pending.len() {
        lemma_recvs_take_front(channel, count);
    } else {
        lemma_closed_after_drain(channel.received(), (count - 1) as nat);
    }
}

/// An open channel never signals `Disconnected`: a receive on it either
/// returns a note or says that waiting can help.
pub proof fn lemma_open_never_disconnected(channel: ChannelState)
    requires
        !channel.is_closed(),
    ensures
        channel.next() != Err::<Note, TryRecvError>(TryRecvError::Disconnected),
        channel.next().is_err() <==> channel.pending.len() == 0,
{
}

} // verus!
