use vstd::prelude::*;

verus! {

/// Virtual-key code of the backspace key.
pub const VK_BACK: u32 = 0x08;

/// Virtual-key code of the generic shift key.
pub const VK_SHIFT: u32 = 0x10;

/// Virtual-key code of the caps-lock key.
pub const VK_CAPITAL: u32 = 0x14;

/// Virtual-key code of the space bar.
pub const VK_SPACE: u32 = 0x20;

/// Virtual-key code of the left shift key.
pub const VK_LSHIFT: u32 = 0xA0;

/// Virtual-key code of the right shift key.
pub const VK_RSHIFT: u32 = 0xA1;

/// A key press as the host reported it, with the modifier state sampled at
/// the instant of the press (never re-sampled later).
#[derive(Clone, Copy, Debug, PartialEq, Eq, Structural)]
pub struct KeyInfo {
    /// Layout-independent virtual-key code.
    pub vk_code: u32,
    /// Hardware scan code.
    pub scan_code: u32,
    /// Control was held down.
    pub cntrl: bool,
    /// Shift was held down.
    pub shift: bool,
    /// Caps-lock was toggled on.
    pub caps: bool,
}

/// What the host's layout lookups answered for one key.
#[derive(Clone, Debug)]
pub struct KeyNames {
    /// The character that the virtual-key code maps to, if any.
    pub key_char: Option<char>,
    /// The human-readable name of the scan code, if any.
    pub scan_name: Option<String>,
    /// The key's name under a keyboard state with shift forced down, if any.
    pub shift_name: Option<String>,
}

/// One key-down event: the key, its lookups and its time in milliseconds.
#[derive(Clone, Debug)]
pub struct KeyEvent {
    pub key: KeyInfo,
    pub names: KeyNames,
    pub time: u64,
}

/// Keys that only modify others (shift, caps-lock): they never yield text
/// and never reach the session buffer.
pub open spec fn is_pure_modifier(vk_code: u32) -> bool {
    vk_code == VK_SHIFT || vk_code == VK_LSHIFT || vk_code == VK_RSHIFT || vk_code == VK_CAPITAL
}

/// Whether a key-down of this virtual-key code is filtered out.
pub fn is_ignored_key(vk_code: u32) -> (r: bool)
    ensures
        r == is_pure_modifier(vk_code),
{
    vk_code == VK_SHIFT || vk_code == VK_LSHIFT || vk_code == VK_RSHIFT || vk_code == VK_CAPITAL
}

} // verus!
