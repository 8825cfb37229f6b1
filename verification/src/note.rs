//! Musical pitches and the keyboard bindings that select them.

use vstd::prelude::*;

verus! {

/// One pitch of the octave from C3 up to and including C4.
#[derive(Clone, Copy, Debug, PartialEq, Eq, Hash, Structural)]
pub enum Note {
    C3,
    Csharp3,
    D3,
    Dsharp3,
    E3,
    F3,
    Fsharp3,
    G3,
    Gsharp3,
    A3,
    Asharp3,
    B3,
    C4,
}

/// The note bound to a character key, if any. The white keys of the octave
/// sit on the home row, the black keys on the row above.
pub open spec fn key_note(key: char) -> Option<Note> {
    if key == 'a' {
        Some(Note::C3)
    } else if key == 'w' {
        Some(Note::Csharp3)
    } else if key == 's' {
        Some(Note::D3)
    } else if key == 'e' {
        Some(Note::Dsharp3)
    } else if key == 'd' {
        Some(Note::E3)
    } else if key == 'f' {
        Some(Note::F3)
    } else if key == 't' {
        Some(Note::Fsharp3)
    } else if key == 'g' {
        Some(Note::G3)
    } else if key == 'y' {
        Some(Note::Gsharp3)
    } else if key == 'h' {
        Some(Note::A3)
    } else if key == 'u' {
        Some(Note::Asharp3)
    } else if key == 'j' {
        Some(Note::B3)
    } else if key == 'k' {
        Some(Note::C4)
    } else {
        None
    }
}

/// Looks a character key up in the bindings.
pub fn note_for_key(key: char) -> (found: Option<Note>)
    ensures
        found == key_note(key),
{
    match key {
        'a' => Some(Note::C3),
        'w' => Some(Note::Csharp3),
        's' => Some(Note::D3),
        'e' => Some(Note::Dsharp3),
        'd' => Some(Note::E3),
        'f' => Some(Note::F3),
        't' => Some(Note::Fsharp3),
        'g' => Some(Note::G3),
        'y' => Some(Note::Gsharp3),
        'h' => Some(Note::A3),
        'u' => Some(Note::Asharp3),
        'j' => Some(Note::B3),
        'k' => Some(Note::C4),
        _ => None,
    }
}

} // verus!
