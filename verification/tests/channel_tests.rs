use keytone::channel::{NoteChannel, SendError, TryRecvError};
use keytone::note::Note;

#[test]
fn fresh_channel_is_open_and_empty() {
    let mut channel = NoteChannel::new();
    assert_eq!(channel.len(), 0);
    assert!(channel.is_empty());
    assert_eq!(channel.sender_count(), 1);
    assert!(!channel.is_closed());
    assert_eq!(channel.try_recv(), Err(TryRecvError::Empty));
}

#[test]
fn notes_leave_in_the_order_they_entered() {
    let sent = [Note::C3, Note::D3, Note::E3, Note::C3, Note::B3, Note::C4, Note::Fsharp3];
    let mut channel = NoteChannel::new();
    for note in sent {
        assert_eq!(channel.send(note), Ok(()));
    }
    assert_eq!(channel.len(), sent.len());
    for note in sent {
        assert_eq!(channel.try_recv(), Ok(note));
    }
    assert_eq!(channel.try_recv(), Err(TryRecvError::Empty));
    assert_eq!(channel.len(), 0);
}

#[test]
fn drain_yields_every_note_once_in_order() {
    let sent = vec![Note::A3, Note::A3, Note::G3, Note::Csharp3];
    let mut channel = NoteChannel::new();
    for note in &sent {
        channel.send(*note).unwrap();
    }
    assert_eq!(channel.drain(), sent);
    assert!(channel.is_empty());
    assert_eq!(channel.drain(), Vec::<Note>::new());
    assert!(!channel.is_closed());
}

#[test]
fn sends_and_receives_may_interleave() {
    let mut channel = NoteChannel::new();
    channel.send(Note::C3).unwrap();
    channel.send(Note::D3).unwrap();
    assert_eq!(channel.try_recv(), Ok(Note::C3));
    channel.send(Note::E3).unwrap();
    assert_eq!(channel.try_recv(), Ok(Note::D3));
    assert_eq!(channel.try_recv(), Ok(Note::E3));
    assert_eq!(channel.try_recv(), Err(TryRecvError::Empty));
}

#[test]
fn closed_channel_delivers_backlog_then_signals() {
    let mut channel = NoteChannel::new();
    channel.send(Note::F3).unwrap();
    channel.send(Note::G3).unwrap();
    channel.drop_sender();
    assert!(channel.is_closed());
    assert_eq!(channel.sender_count(), 0);
    assert_eq!(channel.try_recv(), Ok(Note::F3));
    assert_eq!(channel.try_recv(), Ok(Note::G3));
    assert_eq!(channel.try_recv(), Err(TryRecvError::Disconnected));
    assert_eq!(channel.try_recv(), Err(TryRecvError::Disconnected));
}

#[test]
fn send_without_a_producer_hands_the_note_back() {
    let mut channel = NoteChannel::new();
    channel.drop_sender();
    assert_eq!(channel.send(Note::C4), Err(SendError(Note::C4)));
    assert_eq!(channel.len(), 0);
}

#[test]
fn send_without_a_consumer_hands_the_note_back() {
    let mut channel = NoteChannel::new();
    channel.send(Note::C3).unwrap();
    channel.drop_receiver();
    assert!(channel.is_closed());
    assert_eq!(channel.len(), 0);
    assert_eq!(channel.send(Note::Dsharp3), Err(SendError(Note::Dsharp3)));
    assert_eq!(channel.len(), 0);
    assert_eq!(channel.try_recv(), Err(TryRecvError::Disconnected));
}

#[test]
fn channel_stays_open_while_any_producer_lives() {
    let mut channel = NoteChannel::new();
    assert!(channel.add_sender());
    assert_eq!(channel.sender_count(), 2);
    channel.drop_sender();
    assert!(!channel.is_closed());
    assert_eq!(channel.send(Note::Gsharp3), Ok(()));
    channel.drop_sender();
    assert!(channel.is_closed());
    assert_eq!(channel.try_recv(), Ok(Note::Gsharp3));
    assert_eq!(channel.try_recv(), Err(TryRecvError::Disconnected));
}

#[test]
fn no_producer_joins_a_channel_without_one() {
    let mut channel = NoteChannel::new();
    channel.drop_sender();
    assert!(!channel.add_sender());
    assert_eq!(channel.sender_count(), 0);
    channel.drop_sender();
    assert_eq!(channel.sender_count(), 0);
}

#[test]
fn large_burst_is_never_dropped() {
    let mut channel = NoteChannel::new();
    let notes = [Note::C3, Note::Asharp3, Note::E3];
    for i in 0..3000usize {
        channel.send(notes[i % 3]).unwrap();
    }
    assert_eq!(channel.len(), 3000);
    for i in 0..3000usize {
        assert_eq!(channel.try_recv(), Ok(notes[i % 3]));
    }
    assert!(channel.is_empty());
}
