//! The synthetic key chords the protocols ask the platform layer to send.

use vstd::prelude::*;

verus! {

/// A single key press-and-release, optionally with the command modifier
/// held. The keycode is the OS virtual keycode of the key.
#[derive(Clone, Copy, PartialEq, Eq, Structural)]
pub struct KeyChord {
    /// OS virtual keycode of the key to press.
    pub keycode: u16,
    /// Whether the command modifier is held for the press.
    pub command_modifier: bool,
}

/// The chord that asks the foreground application to copy its selection.
pub open spec fn copy_chord() -> KeyChord {
    KeyChord { keycode: 8, command_modifier: true }
}

/// The chord that asks the foreground application to paste the clipboard.
pub open spec fn paste_chord() -> KeyChord {
    KeyChord { keycode: 9, command_modifier: true }
}

/// The copy chord: command held over the virtual keycode of the C key.
pub fn copy_cmd_c() -> (k: KeyChord)
    ensures
        k == copy_chord(),
{
    KeyChord { keycode: 8, command_modifier: true }
}

/// The paste chord: command held over the virtual keycode of the V key.
pub fn paste_cmd_v() -> (k: KeyChord)
    ensures
        k == paste_chord(),
{
    KeyChord { keycode: 9, command_modifier: true }
}

} // verus!
