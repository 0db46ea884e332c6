//! Win32 edit controls: the styles of a one-line edit and of a multi-line
//! text box, the password character, where the first line of a text box
//! ends, and what the text box does with the return key.

use vstd::prelude::*;
use crate::text::{
    before_nul, crlf_to_lf, fix_crlf, has_crlf, has_no_nul, lemma_control_text_reads_back,
    spec_control_text, spec_crlf_to_lf,
};

verus! {

/// `WS_CHILD | WS_VISIBLE | WS_TABSTOP`.
pub const WS_CHILD_VISIBLE_TABSTOP: u32 = 0x4000_0000 | 0x1000_0000 | 0x0001_0000;
/// `ES_LEFT`.
pub const ES_LEFT: u32 = 0;
/// `ES_MULTILINE`.
pub const ES_MULTILINE: u32 = 4;
/// `ES_PASSWORD`.
pub const ES_PASSWORD: u32 = 0x20;
/// `ES_AUTOVSCROLL`.
pub const ES_AUTOVSCROLL: u32 = 0x40;
/// `ES_AUTOHSCROLL`.
pub const ES_AUTOHSCROLL: u32 = 0x80;
/// `WS_EX_CLIENTEDGE`.
pub const WS_EX_CLIENTEDGE: u32 = 0x200;
/// `WM_GETDLGCODE`.
pub const WM_GETDLGCODE: u32 = 135;
/// `WM_KEYUP`.
pub const WM_KEYUP: u32 = 257;
/// `DLGC_WANTALLKEYS`.
pub const DLGC_WANTALLKEYS: isize = 4;
/// `VK_RETURN`.
pub const VK_RETURN: usize = 13;
/// The character shown in place of each typed one in a password edit,
/// when the system gives none.
pub const DEFAULT_PASSWORD_CHAR: u16 = 42;

/// The style of a one-line edit: left-aligned, scrolling sideways, made as a
/// password edit so that it gets a password character.
pub fn edit_style() -> (s: u32)
    ensures
        s == WS_CHILD_VISIBLE_TABSTOP | ES_LEFT | ES_AUTOHSCROLL | ES_PASSWORD,
{
    WS_CHILD_VISIBLE_TABSTOP | ES_LEFT | ES_AUTOHSCROLL | ES_PASSWORD
}

/// The style of a multi-line text box, scrolling down.
pub fn text_box_style() -> (s: u32)
    ensures
        s == WS_CHILD_VISIBLE_TABSTOP | ES_LEFT | ES_MULTILINE | ES_AUTOVSCROLL,
{
    WS_CHILD_VISIBLE_TABSTOP | ES_LEFT | ES_MULTILINE | ES_AUTOVSCROLL
}

/// The password character an edit keeps: the one the system gave it, or `*`
/// when it gave none.
pub fn password_char(given: u16) -> (c: u16)
    ensures
        c == (if given == 0 { DEFAULT_PASSWORD_CHAR } else { given }),
{
    if given == 0 {
        DEFAULT_PASSWORD_CHAR
    } else {
        given
    }
}

/// The password character an edit is set to show: its own one when it hides
/// what is typed, none (0) otherwise.
pub fn password_char_to_set(hide: bool, pchar: u16) -> (c: u16)
    ensures
        c == (if hide { pchar } else { 0 }),
{
    if hide {
        pchar
    } else {
        0
    }
}

/// Whether an edit hides what is typed: it has a password character.
pub fn is_password(current: isize) -> (b: bool)
    ensures
        b == (current != 0),
{
    current != 0
}

/// Where the first line of a text box ends: the index of its first carriage
/// return, if it has one.
pub fn first_line_end(text: &Vec<u16>) -> (r: Option<usize>)
    ensures
        r matches Some(i) ==> i < text@.len() && text@[i as int] == 13 && forall|j: int|
            0 <= j < i ==> text@[j] != 13,
        r is None ==> forall|j: int| 0 <= j < text@.len() ==> text@[j] != 13,
{
    let mut i: usize = 0;
    while i < text.len()
        invariant
            i <= text@.len(),
            forall|j: int| 0 <= j < i ==> text@[j] != 13,
        decreases text.len() - i,
    {
        if text[i] == 13 {
            return Some(i);
        }
        i = i + 1;
    }
    None
}

/// What the multi-line text box does with a message after the default
/// procedure answered `res`: it does not ask for every key, so that tab
/// leaves it; and a return key that goes up puts a line break in place of
/// the selection. Returns the answer and whether to put the line break.
pub fn multiline_edit_action(msg: u32, wparam: usize, res: isize) -> (a: (isize, bool))
    ensures
        a == (if msg == WM_GETDLGCODE {
            (res & !DLGC_WANTALLKEYS, false)
        } else if msg == WM_KEYUP {
            (res, wparam == VK_RETURN)
        } else {
            (res, false)
        }),
{
    if msg == WM_GETDLGCODE {
        (res & !DLGC_WANTALLKEYS, false)
    } else if msg == WM_KEYUP {
        (res, wparam == VK_RETURN)
    } else {
        (res, false)
    }
}

/// The text a text box hands its control when it is set to `s`: a
/// carriage return put before each lone line feed, cut at the first nul
/// character, where the wide string the control gets ends.
pub fn text_box_control_text(s: &str) -> (r: String)
    ensures
        r@ == spec_control_text(s@),
{
    let fixed = fix_crlf(s);
    before_nul(fixed.as_str())
}

/// The text a text box reports when its control holds `held`: each carriage
/// return and line feed read back as a line feed.
pub fn text_box_text(held: &str) -> (r: String)
    ensures
        r@ == spec_crlf_to_lf(held@),
{
    crlf_to_lf(held)
}

/// A text box set to a text reports that same text, when the text holds no
/// nul character and no carriage return right before a line feed: the
/// control holds the text with carriage returns before its line feeds, and
/// reading it back takes them out again.
pub proof fn lemma_text_box_reads_back(s: Seq<char>)
    requires
        has_no_nul(s),
        !has_crlf(s),
    ensures
        spec_crlf_to_lf(spec_control_text(s)) == s,
{
    lemma_control_text_reads_back(s);
}

} // verus!
