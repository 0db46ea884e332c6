//! Keyboard input: what the Win32 keyboard subclass does with each message,
//! how UIKit reports keys by their HID usage, and which UIKit key presses
//! produce text.

use vstd::prelude::*;

verus! {

/// `WM_NCDESTROY`.
pub const WM_NCDESTROY: u32 = 130;
/// `WM_GETDLGCODE`.
pub const WM_GETDLGCODE: u32 = 135;
/// `WM_KEYDOWN`.
pub const WM_KEYDOWN: u32 = 256;
/// `WM_KEYUP`.
pub const WM_KEYUP: u32 = 257;
/// `WM_CHAR`.
pub const WM_CHAR: u32 = 258;
/// `WM_SYSKEYDOWN`.
pub const WM_SYSKEYDOWN: u32 = 260;
/// `WM_SYSKEYUP`.
pub const WM_SYSKEYUP: u32 = 261;
/// `WM_SYSCHAR`.
pub const WM_SYSCHAR: u32 = 262;
/// `DLGC_WANTARROWS | DLGC_WANTTAB | DLGC_WANTALLKEYS | DLGC_WANTCHARS`: the
/// keyboard wants every key, the arrows, tab and characters.
pub const DLGC_WANT_EVERYTHING: isize = 1 | 2 | 4 | 128;

/// What the keyboard subclass of a window does with a message.
#[derive(Debug, Clone, Copy, PartialEq, Eq, Structural)]
pub enum KeyboardAction {
    /// Answers the dialog code query with this value.
    DialogCode(isize),
    /// Reports a key going down (`down`) or up, by its virtual key when it
    /// fits in 16 bits (an unidentified key otherwise). A system key is also
    /// passed on to the default procedure (`forward`), whose answer is
    /// returned; otherwise the answer is 0.
    Key { down: bool, forward: bool, virtual_key: Option<u16> },
    /// Reports the UTF-16 unit `unit`, typed `repeat` times; a system
    /// character is also passed on to the default procedure.
    Chars { forward: bool, unit: u16, repeat: usize },
    /// Removes the subclass and passes the message on.
    Detach,
    /// Passes the message on to the default procedure.
    PassOn,
}

/// What the keyboard subclass does with the message `msg`.
pub open spec fn spec_keyboard_action(msg: u32, wparam: usize, lparam: isize) -> KeyboardAction {
    if msg == WM_GETDLGCODE {
        KeyboardAction::DialogCode(DLGC_WANT_EVERYTHING)
    } else if msg == WM_KEYDOWN || msg == WM_SYSKEYDOWN || msg == WM_KEYUP || msg == WM_SYSKEYUP {
        KeyboardAction::Key {
            down: msg == WM_KEYDOWN || msg == WM_SYSKEYDOWN,
            forward: msg == WM_SYSKEYDOWN || msg == WM_SYSKEYUP,
            virtual_key: if wparam <= 0xFFFF {
                Some(wparam as u16)
            } else {
                None
            },
        }
    } else if msg == WM_CHAR || msg == WM_SYSCHAR {
        KeyboardAction::Chars {
            forward: msg == WM_SYSCHAR,
            unit: wparam as u16,
            repeat: (lparam as usize) & 0xffff,
        }
    } else if msg == WM_NCDESTROY {
        KeyboardAction::Detach
    } else {
        KeyboardAction::PassOn
    }
}

/// What the keyboard subclass does with the message `msg`.
pub fn keyboard_action(msg: u32, wparam: usize, lparam: isize) -> (a: KeyboardAction)
    ensures
        a == spec_keyboard_action(msg, wparam, lparam),
{
    if msg == WM_GETDLGCODE {
        KeyboardAction::DialogCode(DLGC_WANT_EVERYTHING)
    } else if msg == WM_KEYDOWN || msg == WM_SYSKEYDOWN || msg == WM_KEYUP || msg == WM_SYSKEYUP {
        KeyboardAction::Key {
            down: msg == WM_KEYDOWN || msg == WM_SYSKEYDOWN,
            forward: msg == WM_SYSKEYDOWN || msg == WM_SYSKEYUP,
            virtual_key: if wparam <= 0xFFFF {
                Some(wparam as u16)
            } else {
                None
            },
        }
    } else if msg == WM_CHAR || msg == WM_SYSCHAR {
        KeyboardAction::Chars {
            forward: msg == WM_SYSCHAR,
            unit: wparam as u16,
            repeat: (lparam as usize) & 0xffff,
        }
    } else if msg == WM_NCDESTROY {
        KeyboardAction::Detach
    } else {
        KeyboardAction::PassOn
    }
}

/// A key, as the keyboard events report it.
#[derive(Debug, Clone, Copy, PartialEq, Eq, Structural)]
pub enum KeyCode {
    Backspace,
    Enter,
    Left,
    Right,
    Up,
    Down,
    Home,
    End,
    PageUp,
    PageDown,
    Tab,
    Delete,
    Insert,
    Esc,
    CapsLock,
    ScrollLock,
    NumLock,
    PrintScreen,
    Pause,
    Menu,
    Clear,
    Shift,
    Control,
    Alt,
    Super,
    /// A function key, by its number.
    F(u8),
    /// A key that types a character.
    Char(char),
    Unidentified,
}

/// The key a key message reports: the key its virtual key maps to, or an
/// unidentified key when the message carries no virtual key, that is when
/// its `wparam` does not fit in 16 bits (`virtual_key` of
/// `KeyboardAction::Key` is then `None`). `mapped` is the virtual key of the
/// message, if any, already mapped to its key.
pub fn reported_key(mapped: Option<KeyCode>) -> (k: KeyCode)
    ensures
        k == (match mapped {
            Some(key) => key,
            None => KeyCode::Unidentified,
        }),
{
    match mapped {
        Some(key) => key,
        None => KeyCode::Unidentified,
    }
}

/// A key message whose `wparam` does not fit in 16 bits reports an
/// unidentified key.
pub proof fn lemma_wide_key_is_unidentified(msg: u32, wparam: usize, lparam: isize)
    requires
        msg == WM_KEYDOWN || msg == WM_SYSKEYDOWN || msg == WM_KEYUP || msg == WM_SYSKEYUP,
        wparam > 0xFFFF,
    ensures
        spec_keyboard_action(msg, wparam, lparam) matches KeyboardAction::Key { virtual_key, .. }
            && virtual_key is None,
{
}

/// Every key message reports a key: down exactly for `WM_KEYDOWN` (256) and
/// `WM_SYSKEYDOWN` (260), passed on to the default procedure exactly for the
/// system keys `WM_SYSKEYDOWN` and `WM_SYSKEYUP` (261), with the virtual key
/// `wparam` itself whenever it fits in 16 bits.
pub proof fn lemma_key_messages(msg: u32, wparam: usize, lparam: isize)
    requires
        msg == 256 || msg == 257 || msg == 260 || msg == 261,
    ensures
        spec_keyboard_action(msg, wparam, lparam) matches KeyboardAction::Key {
            down,
            forward,
            virtual_key,
        } && down == (msg == 256 || msg == 260) && forward == (msg == 260 || msg == 261) && (
        wparam <= 0xFFFF ==> virtual_key == Some(wparam as u16)) && (wparam > 0xFFFF
            ==> virtual_key is None),
{
}

/// A key going down and the same key going up report the same virtual key,
/// and only the direction tells them apart; a system key and a plain key
/// differ only in being passed on.
pub proof fn lemma_key_down_and_up_agree(wparam: usize, lparam: isize)
    ensures
        ({
            let down = spec_keyboard_action(256, wparam, lparam);
            let up = spec_keyboard_action(257, wparam, lparam);
            let sys_down = spec_keyboard_action(260, wparam, lparam);
            let sys_up = spec_keyboard_action(261, wparam, lparam);
            &&& down matches KeyboardAction::Key { down: d1, forward: f1, virtual_key: k1 }
            &&& up matches KeyboardAction::Key { down: d2, forward: f2, virtual_key: k2 }
            &&& sys_down matches KeyboardAction::Key { down: d3, forward: f3, virtual_key: k3 }
            &&& sys_up matches KeyboardAction::Key { down: d4, forward: f4, virtual_key: k4 }
            &&& d1 && !d2 && d3 && !d4
            &&& !f1 && !f2 && f3 && f4
            &&& k1 == k2 && k2 == k3 && k3 == k4
        }),
{
}

/// A character message (`WM_CHAR`, 258, or `WM_SYSCHAR`, 262) reports the
/// UTF-16 unit in the low 16 bits of `wparam`, typed as many times as the
/// low 16 bits of `lparam` say; only the system one is passed on.
pub proof fn lemma_char_messages(msg: u32, wparam: usize, lparam: isize)
    requires
        msg == 258 || msg == 262,
    ensures
        spec_keyboard_action(msg, wparam, lparam) matches KeyboardAction::Chars {
            forward,
            unit,
            repeat,
        } && forward == (msg == 262) && unit == (wparam % 0x10000) as u16 && repeat == (lparam
            as usize) % 0x10000,
{
    assert((wparam as u16) == (wparam % 0x10000) as u16) by (bit_vector);
    assert(((lparam as usize) & 0xffff) == (lparam as usize) % 0x10000) by (bit_vector);
}

/// The dialog code query (`WM_GETDLGCODE`, 135) is answered with every want:
/// all keys (4), arrows (1), tab (2) and characters (128); `WM_NCDESTROY`
/// (130) removes the subclass; any other message is passed on.
pub proof fn lemma_other_keyboard_messages(msg: u32, wparam: usize, lparam: isize)
    ensures
        msg == 135 ==> spec_keyboard_action(msg, wparam, lparam) == KeyboardAction::DialogCode(135),
        msg == 130 ==> spec_keyboard_action(msg, wparam, lparam) == KeyboardAction::Detach,
        msg != 135 && msg != 130 && msg != 256 && msg != 257 && msg != 258 && msg != 260 && msg
            != 261 && msg != 262 ==> spec_keyboard_action(msg, wparam, lparam)
            == KeyboardAction::PassOn,
{
    assert(1isize | 2 | 4 | 128 == 135isize) by (bit_vector);
}

/// The HID usages of the keys that UIKit reports by their position.
pub const HID_RETURN_OR_ENTER: u16 = 0x28;
pub const HID_ESCAPE: u16 = 0x29;
pub const HID_DELETE_OR_BACKSPACE: u16 = 0x2A;
pub const HID_TAB: u16 = 0x2B;
pub const HID_CAPS_LOCK: u16 = 0x39;
pub const HID_F1: u16 = 0x3A;
pub const HID_F12: u16 = 0x45;
pub const HID_PRINT_SCREEN: u16 = 0x46;
pub const HID_SCROLL_LOCK: u16 = 0x47;
pub const HID_PAUSE: u16 = 0x48;
pub const HID_INSERT: u16 = 0x49;
pub const HID_HOME: u16 = 0x4A;
pub const HID_PAGE_UP: u16 = 0x4B;
pub const HID_DELETE_FORWARD: u16 = 0x4C;
pub const HID_END: u16 = 0x4D;
pub const HID_PAGE_DOWN: u16 = 0x4E;
pub const HID_RIGHT_ARROW: u16 = 0x4F;
pub const HID_LEFT_ARROW: u16 = 0x50;
pub const HID_DOWN_ARROW: u16 = 0x51;
pub const HID_UP_ARROW: u16 = 0x52;
pub const HID_KEYPAD_NUM_LOCK: u16 = 0x53;
pub const HID_KEYPAD_ENTER: u16 = 0x58;
pub const HID_APPLICATION: u16 = 0x65;
pub const HID_F13: u16 = 0x68;
pub const HID_F24: u16 = 0x73;
pub const HID_MENU: u16 = 0x76;
pub const HID_LOCKING_CAPS_LOCK: u16 = 0x82;
pub const HID_LOCKING_NUM_LOCK: u16 = 0x83;
pub const HID_LOCKING_SCROLL_LOCK: u16 = 0x84;
pub const HID_SYS_REQ_OR_ATTENTION: u16 = 0x9A;
pub const HID_CLEAR: u16 = 0x9C;
pub const HID_RETURN: u16 = 0x9E;
pub const HID_LEFT_CONTROL: u16 = 0xE0;
pub const HID_LEFT_SHIFT: u16 = 0xE1;
pub const HID_LEFT_ALT: u16 = 0xE2;
pub const HID_LEFT_GUI: u16 = 0xE3;
pub const HID_RIGHT_CONTROL: u16 = 0xE4;
pub const HID_RIGHT_SHIFT: u16 = 0xE5;
pub const HID_RIGHT_ALT: u16 = 0xE6;
pub const HID_RIGHT_GUI: u16 = 0xE7;

/// The key of a HID usage that UIKit reports by position; `None` for a key
/// that is reported by the character it types instead.
pub open spec fn spec_hid_key(usage: u16) -> Option<KeyCode> {
    if usage == HID_DELETE_OR_BACKSPACE {
        Some(KeyCode::Backspace)
    } else if usage == HID_RETURN_OR_ENTER || usage == HID_RETURN || usage == HID_KEYPAD_ENTER {
        Some(KeyCode::Enter)
    } else if usage == HID_LEFT_ARROW {
        Some(KeyCode::Left)
    } else if usage == HID_RIGHT_ARROW {
        Some(KeyCode::Right)
    } else if usage == HID_UP_ARROW {
        Some(KeyCode::Up)
    } else if usage == HID_DOWN_ARROW {
        Some(KeyCode::Down)
    } else if usage == HID_HOME {
        Some(KeyCode::Home)
    } else if usage == HID_END {
        Some(KeyCode::End)
    } else if usage == HID_PAGE_UP {
        Some(KeyCode::PageUp)
    } else if usage == HID_PAGE_DOWN {
        Some(KeyCode::PageDown)
    } else if usage == HID_TAB {
        Some(KeyCode::Tab)
    } else if usage == HID_DELETE_FORWARD {
        Some(KeyCode::Delete)
    } else if usage == HID_INSERT {
        Some(KeyCode::Insert)
    } else if usage == HID_ESCAPE {
        Some(KeyCode::Esc)
    } else if usage == HID_CAPS_LOCK || usage == HID_LOCKING_CAPS_LOCK {
        Some(KeyCode::CapsLock)
    } else if usage == HID_SCROLL_LOCK || usage == HID_LOCKING_SCROLL_LOCK {
        Some(KeyCode::ScrollLock)
    } else if usage == HID_KEYPAD_NUM_LOCK || usage == HID_LOCKING_NUM_LOCK {
        Some(KeyCode::NumLock)
    } else if usage == HID_PRINT_SCREEN || usage == HID_SYS_REQ_OR_ATTENTION {
        Some(KeyCode::PrintScreen)
    } else if usage == HID_PAUSE {
        Some(KeyCode::Pause)
    } else if usage == HID_APPLICATION || usage == HID_MENU {
        Some(KeyCode::Menu)
    } else if usage == HID_CLEAR {
        Some(KeyCode::Clear)
    } else if usage == HID_LEFT_SHIFT || usage == HID_RIGHT_SHIFT {
        Some(KeyCode::Shift)
    } else if usage == HID_LEFT_CONTROL || usage == HID_RIGHT_CONTROL {
        Some(KeyCode::Control)
    } else if usage == HID_LEFT_ALT || usage == HID_RIGHT_ALT {
        Some(KeyCode::Alt)
    } else if usage == HID_LEFT_GUI || usage == HID_RIGHT_GUI {
        Some(KeyCode::Super)
    } else if HID_F1 <= usage <= HID_F12 {
        Some(KeyCode::F((usage - HID_F1 + 1) as u8))
    } else if HID_F13 <= usage <= HID_F24 {
        Some(KeyCode::F((usage - HID_F13 + 13) as u8))
    } else {
        None
    }
}

/// The key of a HID usage that UIKit reports by position; `None` for a key
/// that is reported by the character it types, whatever the layout.
pub fn hid_key(usage: u16) -> (k: Option<KeyCode>)
    ensures
        k == spec_hid_key(usage),
{
    if usage == HID_DELETE_OR_BACKSPACE {
        Some(KeyCode::Backspace)
    } else if usage == HID_RETURN_OR_ENTER || usage == HID_RETURN || usage == HID_KEYPAD_ENTER {
        Some(KeyCode::Enter)
    } else if usage == HID_LEFT_ARROW {
        Some(KeyCode::Left)
    } else if usage == HID_RIGHT_ARROW {
        Some(KeyCode::Right)
    } else if usage == HID_UP_ARROW {
        Some(KeyCode::Up)
    } else if usage == HID_DOWN_ARROW {
        Some(KeyCode::Down)
    } else if usage == HID_HOME {
        Some(KeyCode::Home)
    } else if usage == HID_END {
        Some(KeyCode::End)
    } else if usage == HID_PAGE_UP {
        Some(KeyCode::PageUp)
    } else if usage == HID_PAGE_DOWN {
        Some(KeyCode::PageDown)
    } else if usage == HID_TAB {
        Some(KeyCode::Tab)
    } else if usage == HID_DELETE_FORWARD {
        Some(KeyCode::Delete)
    } else if usage == HID_INSERT {
        Some(KeyCode::Insert)
    } else if usage == HID_ESCAPE {
        Some(KeyCode::Esc)
    } else if usage == HID_CAPS_LOCK || usage == HID_LOCKING_CAPS_LOCK {
        Some(KeyCode::CapsLock)
    } else if usage == HID_SCROLL_LOCK || usage == HID_LOCKING_SCROLL_LOCK {
        Some(KeyCode::ScrollLock)
    } else if usage == HID_KEYPAD_NUM_LOCK || usage == HID_LOCKING_NUM_LOCK {
        Some(KeyCode::NumLock)
    } else if usage == HID_PRINT_SCREEN || usage == HID_SYS_REQ_OR_ATTENTION {
        Some(KeyCode::PrintScreen)
    } else if usage == HID_PAUSE {
        Some(KeyCode::Pause)
    } else if usage == HID_APPLICATION || usage == HID_MENU {
        Some(KeyCode::Menu)
    } else if usage == HID_CLEAR {
        Some(KeyCode::Clear)
    } else if usage == HID_LEFT_SHIFT || usage == HID_RIGHT_SHIFT {
        Some(KeyCode::Shift)
    } else if usage == HID_LEFT_CONTROL || usage == HID_RIGHT_CONTROL {
        Some(KeyCode::Control)
    } else if usage == HID_LEFT_ALT || usage == HID_RIGHT_ALT {
        Some(KeyCode::Alt)
    } else if usage == HID_LEFT_GUI || usage == HID_RIGHT_GUI {
        Some(KeyCode::Super)
    } else if HID_F1 <= usage && usage <= HID_F12 {
        Some(KeyCode::F((usage - HID_F1 + 1) as u8))
    } else if HID_F13 <= usage && usage <= HID_F24 {
        Some(KeyCode::F((usage - HID_F13 + 13) as u8))
    } else {
        None
    }
}

/// The key UIKit reports with the HID usage `usage`: the key at that
/// position, or else `character_key`, the key of the character the press
/// types with the current layout.
pub fn key_code(usage: u16, character_key: KeyCode) -> (k: KeyCode)
    ensures
        k == match spec_hid_key(usage) {
            Some(key) => key,
            None => character_key,
        },
{
    match hid_key(usage) {
        Some(key) => key,
        None => character_key,
    }
}

/// Whether a key press may type text: not with the command modifier held,
/// and only for a character key, an unidentified key, or one of the keys
/// that edit text (backspace, enter, tab, delete, escape); navigation,
/// function and modifier keys carry symbolic strings instead.
pub open spec fn spec_types_text(command: bool, key: KeyCode) -> bool {
    !command && (key matches KeyCode::Char(_) || key == KeyCode::Unidentified || key
        == KeyCode::Backspace || key == KeyCode::Enter || key == KeyCode::Tab || key
        == KeyCode::Delete || key == KeyCode::Esc)
}

/// Whether a key press may type text.
pub fn types_text(command: bool, key: KeyCode) -> (b: bool)
    ensures
        b == spec_types_text(command, key),
{
    if command {
        return false;
    }
    match key {
        KeyCode::Char(_) | KeyCode::Unidentified | KeyCode::Backspace | KeyCode::Enter
        | KeyCode::Tab | KeyCode::Delete | KeyCode::Esc => true,
        _ => false,
    }
}

/// The function keys F1 to F24 are numbered 1 to 24 in order, and no other
/// HID usage reports a function key.
pub proof fn lemma_function_keys_numbered(usage: u16)
    ensures
        spec_hid_key(usage) matches Some(KeyCode::F(n)) <==> ((HID_F1 <= usage <= HID_F12)
            || (HID_F13 <= usage <= HID_F24)),
        HID_F1 <= usage <= HID_F12 ==> spec_hid_key(usage) == Some(
            KeyCode::F((usage - HID_F1 + 1) as u8),
        ),
        HID_F13 <= usage <= HID_F24 ==> spec_hid_key(usage) == Some(
            KeyCode::F((usage - HID_F13 + 13) as u8),
        ),
        spec_hid_key(usage) matches Some(KeyCode::F(n)) ==> 1 <= n <= 24,
{
}

/// The keys UIKit reports by position, by their HID usage: each named
/// usage gives its own key.
pub proof fn lemma_hid_usage_table()
    ensures
        spec_hid_key(0x28) == Some(KeyCode::Enter),
        spec_hid_key(0x29) == Some(KeyCode::Esc),
        spec_hid_key(0x2A) == Some(KeyCode::Backspace),
        spec_hid_key(0x2B) == Some(KeyCode::Tab),
        spec_hid_key(0x39) == Some(KeyCode::CapsLock),
        spec_hid_key(0x3A) == Some(KeyCode::F(1)),
        spec_hid_key(0x45) == Some(KeyCode::F(12)),
        spec_hid_key(0x46) == Some(KeyCode::PrintScreen),
        spec_hid_key(0x47) == Some(KeyCode::ScrollLock),
        spec_hid_key(0x48) == Some(KeyCode::Pause),
        spec_hid_key(0x49) == Some(KeyCode::Insert),
        spec_hid_key(0x4A) == Some(KeyCode::Home),
        spec_hid_key(0x4B) == Some(KeyCode::PageUp),
        spec_hid_key(0x4C) == Some(KeyCode::Delete),
        spec_hid_key(0x4D) == Some(KeyCode::End),
        spec_hid_key(0x4E) == Some(KeyCode::PageDown),
        spec_hid_key(0x4F) == Some(KeyCode::Right),
        spec_hid_key(0x50) == Some(KeyCode::Left),
        spec_hid_key(0x51) == Some(KeyCode::Down),
        spec_hid_key(0x52) == Some(KeyCode::Up),
        spec_hid_key(0x53) == Some(KeyCode::NumLock),
        spec_hid_key(0x58) == Some(KeyCode::Enter),
        spec_hid_key(0x65) == Some(KeyCode::Menu),
        spec_hid_key(0x68) == Some(KeyCode::F(13)),
        spec_hid_key(0x73) == Some(KeyCode::F(24)),
        spec_hid_key(0x76) == Some(KeyCode::Menu),
        spec_hid_key(0x82) == Some(KeyCode::CapsLock),
        spec_hid_key(0x83) == Some(KeyCode::NumLock),
        spec_hid_key(0x84) == Some(KeyCode::ScrollLock),
        spec_hid_key(0x9A) == Some(KeyCode::PrintScreen),
        spec_hid_key(0x9C) == Some(KeyCode::Clear),
        spec_hid_key(0x9E) == Some(KeyCode::Enter),
        spec_hid_key(0xE0) == Some(KeyCode::Control),
        spec_hid_key(0xE1) == Some(KeyCode::Shift),
        spec_hid_key(0xE2) == Some(KeyCode::Alt),
        spec_hid_key(0xE3) == Some(KeyCode::Super),
        spec_hid_key(0xE4) == Some(KeyCode::Control),
        spec_hid_key(0xE5) == Some(KeyCode::Shift),
        spec_hid_key(0xE6) == Some(KeyCode::Alt),
        spec_hid_key(0xE7) == Some(KeyCode::Super),
{
}

/// The letter, digit and punctuation usages, and any usage not named by the
/// keyboard page, are reported by the character they type, whatever the
/// layout.
pub proof fn lemma_character_usages(usage: u16)
    requires
        (0x04 <= usage < 0x28) || (0x2C <= usage < 0x39) || usage < 0x04 || (0x85 <= usage < 0x9A)
            || (0xA0 <= usage < 0xE0) || usage > 0xE7,
    ensures
        spec_hid_key(usage) is None,
{
}

/// A press types text exactly when no command modifier is held and the key
/// is a character, an unidentified key, backspace, enter, tab, delete or
/// escape; navigation, function, lock and modifier keys never type text.
pub proof fn lemma_which_keys_type_text(command: bool, c: char, n: u8)
    ensures
        spec_types_text(command, KeyCode::Char(c)) == !command,
        spec_types_text(command, KeyCode::Unidentified) == !command,
        spec_types_text(command, KeyCode::Backspace) == !command,
        spec_types_text(command, KeyCode::Enter) == !command,
        spec_types_text(command, KeyCode::Tab) == !command,
        spec_types_text(command, KeyCode::Delete) == !command,
        spec_types_text(command, KeyCode::Esc) == !command,
        !spec_types_text(command, KeyCode::Left),
        !spec_types_text(command, KeyCode::Right),
        !spec_types_text(command, KeyCode::Up),
        !spec_types_text(command, KeyCode::Down),
        !spec_types_text(command, KeyCode::Home),
        !spec_types_text(command, KeyCode::End),
        !spec_types_text(command, KeyCode::PageUp),
        !spec_types_text(command, KeyCode::PageDown),
        !spec_types_text(command, KeyCode::Insert),
        !spec_types_text(command, KeyCode::CapsLock),
        !spec_types_text(command, KeyCode::ScrollLock),
        !spec_types_text(command, KeyCode::NumLock),
        !spec_types_text(command, KeyCode::PrintScreen),
        !spec_types_text(command, KeyCode::Pause),
        !spec_types_text(command, KeyCode::Menu),
        !spec_types_text(command, KeyCode::Clear),
        !spec_types_text(command, KeyCode::Shift),
        !spec_types_text(command, KeyCode::Control),
        !spec_types_text(command, KeyCode::Alt),
        !spec_types_text(command, KeyCode::Super),
        !spec_types_text(command, KeyCode::F(n)),
{
}

} // verus!
