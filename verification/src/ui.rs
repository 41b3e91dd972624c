//! Whether the debug overlay shows: a toggle on two function keys.

use vstd::prelude::*;

verus! {

/// A key, as far as the overlay tells keys apart.
#[derive(Clone, Copy, Debug, PartialEq, Eq, Structural)]
pub enum Key {
    F1,
    F2,
    Other,
}

/// The overlay's state: whether it shows, and whether a toggle key was down
/// at the last key event.
pub struct Ui {
    visible: bool,
    pressed_last_frame: bool,
}

/// What a key event does to the overlay: whether it shows afterwards, whether
/// a toggle key is held afterwards, and whether the overlay took the event.
///
/// A toggle key flips the overlay when it goes down, not while it is held
/// nor when it comes up. Events of other keys, and events that are no key
/// events (`None`), pass through and change nothing.
pub open spec fn spec_input(visible: bool, held: bool, key: Option<Key>, pressed: bool) -> (
    bool,
    bool,
    bool,
) {
    match key {
        Some(Key::F1) | Some(Key::F2) => (
            if pressed && !held {
                !visible
            } else {
                visible
            },
            pressed,
            true,
        ),
        _ => (visible, held, false),
    }
}

impl Ui {
    /// Whether the overlay shows.
    pub closed spec fn spec_visible(&self) -> bool {
        self.visible
    }

    /// Whether a toggle key was down at the last key event.
    pub closed spec fn spec_pressed_last_frame(&self) -> bool {
        self.pressed_last_frame
    }

    /// A hidden overlay, no key held.
    pub fn new() -> (ui: Self)
        ensures
            !ui.spec_visible(),
            !ui.spec_pressed_last_frame(),
    {
        Ui { visible: false, pressed_last_frame: false }
    }

    /// Whether the overlay shows. While it does not, it is neither updated
    /// nor drawn.
    pub fn is_visible(&self) -> (visible: bool)
        ensures
            visible == self.spec_visible(),
    {
        self.visible
    }

    /// Handles one input event and tells whether the overlay took it.
    pub fn input(&mut self, key: Option<Key>, pressed: bool) -> (captured: bool)
        ensures
            (final(self).spec_visible(), final(self).spec_pressed_last_frame(), captured)
                == spec_input(
                old(self).spec_visible(),
                old(self).spec_pressed_last_frame(),
                key,
                pressed,
            ),
    {
        match key {
            Some(Key::F1) | Some(Key::F2) => {
                if pressed && !self.pressed_last_frame {
                    self.visible = !self.visible;
                }
                self.pressed_last_frame = pressed;
                true
            },
            _ => false,
        }
    }
}

/// Pressing a toggle key, releasing it and pressing it again puts the overlay
/// back as it was; holding the key down flips it once only.
pub proof fn lemma_toggle_twice(visible: bool, key: Key)
    requires
        key != Key::Other,
    ensures
        ({
            let down = spec_input(visible, false, Some(key), true);
            let held = spec_input(down.0, down.1, Some(key), true);
            let up = spec_input(held.0, held.1, Some(key), false);
            let again = spec_input(up.0, up.1, Some(key), true);
            &&& down.0 == !visible
            &&& held.0 == !visible
            &&& up.0 == !visible
            &&& again.0 == visible
        }),
{
}

} // verus!
