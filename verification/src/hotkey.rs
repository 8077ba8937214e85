//! The push-to-talk key: which keyboard messages the low-level hook turns
//! into "pressed" and "released" events for the pipeline.
use vstd::prelude::*;

verus! {

/// The virtual-key code of F9, the push-to-talk key.
pub const VK_F9: u32 = 0x78;

/// The window message for a key going down.
pub const WM_KEYDOWN: usize = 0x0100;

/// The window message for a key coming up.
pub const WM_KEYUP: usize = 0x0101;

/// The window message for a key going down while Alt is held.
pub const WM_SYSKEYDOWN: usize = 0x0104;

/// The window message for a key coming up while Alt is held.
pub const WM_SYSKEYUP: usize = 0x0105;

/// A keyboard message as the low-level keyboard hook receives it: the hook
/// code, the message kind and the virtual-key code of the key.
#[derive(Clone, Copy, Debug)]
pub struct KeyMessage {
    pub code: i32,
    pub wparam: usize,
    pub vk_code: u32,
}

/// Whether the message is a key going down.
pub open spec fn is_key_down(m: KeyMessage) -> bool {
    m.wparam == WM_KEYDOWN || m.wparam == WM_SYSKEYDOWN
}

/// Whether the message is a key coming up.
pub open spec fn is_key_up(m: KeyMessage) -> bool {
    m.wparam == WM_KEYUP || m.wparam == WM_SYSKEYUP
}

/// One message seen by the hook while F9 is (`pressing`) or is not held:
/// F9 going down while not held gives "pressed", F9 coming up while held
/// gives "released"; everything else (negative hook codes, other keys, key
/// repeats) changes nothing and gives no event.
pub open spec fn hook_step(pressing: bool, m: KeyMessage) -> (bool, Option<bool>) {
    if m.code >= 0 && m.vk_code == VK_F9 {
        if is_key_down(m) && !pressing {
            (true, Some(true))
        } else if is_key_up(m) && pressing {
            (false, Some(false))
        } else {
            (pressing, None)
        }
    } else {
        (pressing, None)
    }
}

/// The hook's state after a run of messages, and the events it gave.
pub open spec fn hook_run(pressing: bool, msgs: Seq<KeyMessage>) -> (bool, Seq<bool>)
    decreases msgs.len(),
{
    if msgs.len() == 0 {
        (pressing, Seq::empty())
    } else {
        let before = hook_run(pressing, msgs.drop_last());
        let step = hook_step(before.0, msgs.last());
        (
            step.0,
            match step.1 {
                Some(e) => before.1.push(e),
                None => before.1,
            },
        )
    }
}

/// Whether F9 is held, as far as the hook has seen.
pub struct HotkeyHook {
    pressing: bool,
}

impl View for HotkeyHook {
    type V = bool;

    closed spec fn view(&self) -> bool {
        self.pressing
    }
}

impl HotkeyHook {
    /// A hook that has seen no message: F9 is not held.
    pub fn new() -> (h: HotkeyHook)
        ensures
            !h@,
    {
        HotkeyHook { pressing: false }
    }

    /// Whether F9 is held.
    pub fn is_pressing(&self) -> (b: bool)
        ensures
            b == self@,
    {
        self.pressing
    }

    /// Takes one keyboard message and gives the event to send, if any:
    /// `Some(true)` when F9 goes down, `Some(false)` when it comes up.
    pub fn on_key_message(&mut self, code: i32, wparam: usize, vk_code: u32) -> (event: Option<
        bool,
    >)
        ensures
            (final(self)@, event) == hook_step(
                old(self)@,
                KeyMessage { code, wparam, vk_code },
            ),
    {
        if code >= 0 && vk_code == VK_F9 {
            let is_down = wparam == WM_KEYDOWN || wparam == WM_SYSKEYDOWN;
            let is_up = wparam == WM_KEYUP || wparam == WM_SYSKEYUP;
            if is_down && !self.pressing {
                self.pressing = true;
                return Some(true);
            } else if is_up && self.pressing {
                self.pressing = false;
                return Some(false);
            }
        }
        None
    }
}

/// From a fresh hook, whatever messages come, the events alternate
/// "pressed", "released", "pressed", ... and F9 counts as held exactly when
/// the last event was "pressed".
pub proof fn law_events_alternate(msgs: Seq<KeyMessage>)
    ensures
        forall|i: int|
            0 <= i < hook_run(false, msgs).1.len() ==> #[trigger] hook_run(false, msgs).1[i] == (i
                % 2 == 0),
        hook_run(false, msgs).0 == (hook_run(false, msgs).1.len() % 2 == 1),
    decreases msgs.len(),
{
    if msgs.len() > 0 {
        law_events_alternate(msgs.drop_last());
    }
}

/// Messages for keys other than F9 change nothing and give no event.
pub proof fn law_other_keys_ignored(pressing: bool, m: KeyMessage)
    requires
        m.vk_code != VK_F9,
    ensures
        hook_step(pressing, m) == (pressing, None::<bool>),
{
}

/// Holding F9 down, which repeats the key-down message, gives one
/// "pressed" event and no more until it is released.
pub proof fn law_key_repeat_ignored(m: KeyMessage)
    requires
        is_key_down(m),
    ensures
        hook_step(true, m) == (true, None::<bool>),
{
}

} // verus!
