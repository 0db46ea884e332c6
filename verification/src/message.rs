//! Window messages as the Win32 backend sees them, decoded from the raw
//! `(message, wparam, lparam)` triple.

use vstd::prelude::*;

verus! {

/// `WM_COMMAND`.
pub const WM_COMMAND: u32 = 0x0111;
/// `WM_NOTIFY`.
pub const WM_NOTIFY: u32 = 0x004E;

/// A `WM_COMMAND` message: the notification code and the control that sent it.
#[derive(Debug, Clone, Copy, PartialEq, Eq, Structural)]
pub struct WindowMessageCommand {
    pub message: u32,
    pub handle: usize,
}

/// A `WM_NOTIFY` message: the control that sent it and the notification code.
#[derive(Debug, Clone, Copy, PartialEq, Eq, Structural)]
pub struct WindowMessageNotify {
    pub hwnd_from: usize,
    pub code: u32,
}

/// A message received by a window procedure.
#[derive(Debug, Clone, Copy, PartialEq, Eq, Structural)]
pub enum WindowMessage {
    General { wparam: usize, lparam: isize },
    Command(WindowMessageCommand),
    Notify(WindowMessageNotify),
}

/// The notification code of a `WM_COMMAND`: the high word of `wparam`.
pub open spec fn command_code(wparam: usize) -> u32 {
    ((wparam as u32) >> 16u32) & 0xFFFFu32
}

/// The message a window procedure receives for `(message, wparam, lparam)`.
/// For `WM_NOTIFY`, `header` is what the `NMHDR` at `lparam` holds.
pub open spec fn spec_window_message(
    message: u32,
    wparam: usize,
    lparam: isize,
    header: Option<WindowMessageNotify>,
) -> WindowMessage {
    if message == WM_COMMAND {
        WindowMessage::Command(
            WindowMessageCommand { message: command_code(wparam), handle: lparam as usize },
        )
    } else if message == WM_NOTIFY {
        WindowMessage::Notify(header->0)
    } else {
        WindowMessage::General { wparam, lparam }
    }
}

/// Decodes a message. `header` is read by the caller from the `NMHDR` that
/// `lparam` points to when the message is `WM_NOTIFY`.
pub fn window_message(
    message: u32,
    wparam: usize,
    lparam: isize,
    header: Option<WindowMessageNotify>,
) -> (m: WindowMessage)
    requires
        message == WM_NOTIFY ==> header is Some,
    ensures
        m == spec_window_message(message, wparam, lparam, header),
{
    if message == WM_COMMAND {
        WindowMessage::Command(
            WindowMessageCommand { message: ((wparam as u32) >> 16) & 0xFFFF, handle: lparam as usize },
        )
    } else if message == WM_NOTIFY {
        match header {
            Some(h) => WindowMessage::Notify(h),
            None => WindowMessage::Notify(WindowMessageNotify { hwnd_from: 0, code: 0 }),
        }
    } else {
        WindowMessage::General { wparam, lparam }
    }
}

impl WindowMessage {
    /// The `wparam` of a general message.
    pub fn wparam(&self) -> (w: usize)
        requires
            self is General,
        ensures
            w == self->wparam,
    {
        match self {
            WindowMessage::General { wparam, .. } => *wparam,
            _ => 0,
        }
    }

    /// The `lparam` of a general message.
    pub fn lparam(&self) -> (l: isize)
        requires
            self is General,
        ensures
            l == self->lparam,
    {
        match self {
            WindowMessage::General { lparam, .. } => *lparam,
            _ => 0,
        }
    }

    /// The content of a `WM_COMMAND` message.
    pub fn command(self) -> (c: WindowMessageCommand)
        requires
            self is Command,
        ensures
            c == self->Command_0,
    {
        match self {
            WindowMessage::Command(c) => c,
            _ => WindowMessageCommand { message: 0, handle: 0 },
        }
    }

    /// The content of a `WM_NOTIFY` message.
    pub fn notify(self) -> (n: WindowMessageNotify)
        requires
            self is Notify,
        ensures
            n == self->Notify_0,
    {
        match self {
            WindowMessage::Notify(n) => n,
            _ => WindowMessageNotify { hwnd_from: 0, code: 0 },
        }
    }
}

/// Whether a `WM_COMMAND` is the notification `code` sent by the control
/// `handle`: what a widget waits for before it reports a click, a change or a
/// selection.
pub fn is_command_from(cmd: WindowMessageCommand, handle: usize, code: u32) -> (b: bool)
    ensures
        b == (cmd.handle == handle && cmd.message == code),
{
    cmd.handle == handle && cmd.message == code
}

/// Whether a `WM_NOTIFY` is one of `codes` sent by the control `handle`.
pub fn is_notify_from(n: WindowMessageNotify, handle: usize, codes: &[u32]) -> (b: bool)
    ensures
        b == (n.hwnd_from == handle && codes@.contains(n.code)),
{
    if n.hwnd_from != handle {
        return false;
    }
    let mut i: usize = 0;
    while i < codes.len()
        invariant
            i <= codes.len(),
            n.hwnd_from == handle,
            forall|j: int| 0 <= j < i ==> codes@[j] != n.code,
        decreases codes.len() - i,
    {
        if codes[i] == n.code {
            assert(codes@[i as int] == n.code);
            return true;
        }
        i = i + 1;
    }
    false
}

/// The notification code of a `WM_COMMAND` is the high word of the low 32
/// bits of `wparam`: a `wparam` made of a code and a control id gives the
/// code back, whatever the id.
pub proof fn lemma_command_code_is_high_word(code: u32, id: u32, wparam: usize)
    requires
        code <= 0xFFFF,
        id <= 0xFFFF,
        wparam == code * 0x10000 + id,
    ensures
        command_code(wparam) == code,
{
    let w = wparam;
    assert(((w as u32) >> 16u32) & 0xFFFFu32 == code) by (bit_vector)
        requires
            code <= 0xFFFFu32,
            id <= 0xFFFFu32,
            w == code * 0x10000u32 + id,
    ;
}

/// How a message is decoded: `WM_COMMAND` (0x111) as a command from the
/// control whose handle is `lparam`, `WM_NOTIFY` (0x4E) as the notification
/// header read at `lparam`, and any other message as its own `wparam` and
/// `lparam`.
pub proof fn lemma_window_message_kinds(
    message: u32,
    wparam: usize,
    lparam: isize,
    header: WindowMessageNotify,
)
    ensures
        spec_window_message(0x111, wparam, lparam, Some(header)) == WindowMessage::Command(
            (WindowMessageCommand { message: command_code(wparam), handle: lparam as usize }),
        ),
        spec_window_message(0x4E, wparam, lparam, Some(header)) == WindowMessage::Notify(header),
        message != 0x111 && message != 0x4E ==> spec_window_message(
            message,
            wparam,
            lparam,
            Some(header),
        ) == (WindowMessage::General { wparam, lparam }),
{
}

} // verus!
