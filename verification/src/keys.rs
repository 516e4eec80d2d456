//! The synthetic paste keystroke sequences and the bounded recovery
//! discipline for failed injections.

use vstd::prelude::*;

verus! {

/// Virtual-key code of the Shift key.
pub const VK_SHIFT: u16 = 0x10;

/// Virtual-key code of the Control key.
pub const VK_CONTROL: u16 = 0x11;

/// Virtual-key code of the paste letter key (the letter V).
pub const VK_V: u16 = 0x56;

/// Key-event flag marking a key-up event; a zero flag marks a key-down.
pub const KEYEVENTF_KEYUP: u32 = 0x0002;

/// How many times a failed force-release injection is retried before the
/// engine gives up.
pub const MAX_RETRIES: u8 = 10;

/// Backoff between force-release retries, in milliseconds.
pub const RETRY_DELAY_MS: u32 = 25;

/// Pause after a successful paste injection, before the clipboard is
/// swapped: shorter than the fastest possible key auto-repeat interval.
pub const PASTE_SETTLE_MS: u32 = 25;

/// The event flag that restores a key to its queried physical state: a
/// key-down when it was held, a key-up when it was not.
pub open spec fn restore_flag(was_down: bool) -> u32 {
    if was_down {
        0u32
    } else {
        KEYEVENTF_KEYUP
    }
}

/// The event flag that toggles a key out of its queried physical state, so
/// the paste combination registers as freshly pressed.
pub open spec fn toggle_flag(was_down: bool) -> u32 {
    if was_down {
        KEYEVENTF_KEYUP
    } else {
        0u32
    }
}

/// Whether a key is logically held down after the events in
/// `keys`/`flags` have been applied on top of the starting state `down`.
/// Events are applied in order; only events naming `key` matter.
pub open spec fn key_down_after(keys: Seq<u16>, flags: Seq<u32>, key: u16, down: bool) -> bool
    decreases keys.len(),
{
    if keys.len() == 0 {
        down
    } else {
        let head_applied = if keys[0] == key {
            flags[0] != KEYEVENTF_KEYUP
        } else {
            down
        };
        key_down_after(keys.drop_first(), flags.drop_first(), key, head_applied)
    }
}

/// The six-event paste sequence: release Shift, toggle Control and the
/// paste key into a freshly pressed paste combination, then restore
/// Control, the paste key and Shift to their queried physical states.
/// `control_down`, `v_down` and `shift_down` are the queried physical
/// press-states (a failed query counts as held down, exactly as the
/// restore flags expect).
pub fn paste_key_sequence(control_down: bool, v_down: bool, shift_down: bool) -> (r: (
    Vec<u16>,
    Vec<u32>,
))
    ensures
        r.0@ == seq![VK_SHIFT, VK_CONTROL, VK_V, VK_CONTROL, VK_V, VK_SHIFT],
        r.1@ == seq![
            KEYEVENTF_KEYUP,
            toggle_flag(control_down),
            toggle_flag(v_down),
            restore_flag(control_down),
            restore_flag(v_down),
            restore_flag(shift_down),
        ],
{
    let keys: Vec<u16> = vec![VK_SHIFT, VK_CONTROL, VK_V, VK_CONTROL, VK_V, VK_SHIFT];
    let flags: Vec<u32> = vec![
        KEYEVENTF_KEYUP,
        if control_down {
            KEYEVENTF_KEYUP
        } else {
            0
        },
        if v_down {
            KEYEVENTF_KEYUP
        } else {
            0
        },
        if control_down {
            0
        } else {
            KEYEVENTF_KEYUP
        },
        if v_down {
            0
        } else {
            KEYEVENTF_KEYUP
        },
        if shift_down {
            0
        } else {
            KEYEVENTF_KEYUP
        },
    ];
    (keys, flags)
}

/// The three-event force-release sequence: Shift, Control and the paste key
/// all key-up.
pub fn release_key_sequence() -> (r: (Vec<u16>, Vec<u32>))
    ensures
        r.0@ == seq![VK_SHIFT, VK_CONTROL, VK_V],
        r.1@ == seq![KEYEVENTF_KEYUP, KEYEVENTF_KEYUP, KEYEVENTF_KEYUP],
{
    let keys: Vec<u16> = vec![VK_SHIFT, VK_CONTROL, VK_V];
    let flags: Vec<u32> = vec![KEYEVENTF_KEYUP, KEYEVENTF_KEYUP, KEYEVENTF_KEYUP];
    (keys, flags)
}

/// After the whole paste sequence, Control, the paste key and Shift are
/// each back in the physical state that was queried before the injection.
pub proof fn lemma_paste_sequence_restores_keys(
    control_down: bool,
    v_down: bool,
    shift_down: bool,
)
    ensures
        key_down_after(
            seq![VK_SHIFT, VK_CONTROL, VK_V, VK_CONTROL, VK_V, VK_SHIFT],
            seq![
                KEYEVENTF_KEYUP,
                toggle_flag(control_down),
                toggle_flag(v_down),
                restore_flag(control_down),
                restore_flag(v_down),
                restore_flag(shift_down),
            ],
            VK_CONTROL,
            control_down,
        ) == control_down,
        key_down_after(
            seq![VK_SHIFT, VK_CONTROL, VK_V, VK_CONTROL, VK_V, VK_SHIFT],
            seq![
                KEYEVENTF_KEYUP,
                toggle_flag(control_down),
                toggle_flag(v_down),
                restore_flag(control_down),
                restore_flag(v_down),
                restore_flag(shift_down),
            ],
            VK_V,
            v_down,
        ) == v_down,
        key_down_after(
            seq![VK_SHIFT, VK_CONTROL, VK_V, VK_CONTROL, VK_V, VK_SHIFT],
            seq![
                KEYEVENTF_KEYUP,
                toggle_flag(control_down),
                toggle_flag(v_down),
                restore_flag(control_down),
                restore_flag(v_down),
                restore_flag(shift_down),
            ],
            VK_SHIFT,
            shift_down,
        ) == shift_down,
{
    reveal_with_fuel(key_down_after, 7);
}

/// What the engine does after one more failed force-release injection:
/// retry after a short backoff while the budget lasts, otherwise give up
/// for good.
#[derive(Debug, PartialEq, Eq, Structural, Clone, Copy)]
pub enum RecoveryStep {
    /// Try the force-release sequence again after `RETRY_DELAY_MS`.
    Retry,
    /// The budget is exhausted: stuck modifier keys could not be released,
    /// which is fatal by design.
    Fatal,
}

/// The bounded retry budget of the force-release recovery loop.
pub struct Recovery {
    /// Failed attempts recorded so far.
    pub retries: u8,
}

impl Recovery {
    /// The budget never records more than `MAX_RETRIES` failures.
    pub open spec fn wf(&self) -> bool {
        self.retries <= MAX_RETRIES
    }

    /// A fresh budget with no failures recorded.
    pub fn new() -> (r: Recovery)
        ensures
            r.wf(),
            r.retries == 0,
    {
        Recovery { retries: 0 }
    }

    /// Record one more failed force-release injection and say whether to
    /// retry or to give up.
    pub fn on_failure(&mut self) -> (r: RecoveryStep)
        requires
            old(self).wf(),
        ensures
            final(self).wf(),
            old(self).retries >= MAX_RETRIES ==> r == RecoveryStep::Fatal && final(self).retries
                == old(self).retries,
            old(self).retries < MAX_RETRIES ==> r == RecoveryStep::Retry && final(self).retries
                == old(self).retries + 1,
    {
        if self.retries >= MAX_RETRIES {
            RecoveryStep::Fatal
        } else {
            self.retries += 1;
            RecoveryStep::Retry
        }
    }
}

} // verus!
