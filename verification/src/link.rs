//! Win32 link labels: the markup a link control shows for its text and its
//! address, what a click on it does, and what the subclass of a static link
//! label does with its messages.

use vstd::prelude::*;

verus! {

/// The markup a link label shows: a link with the address `uri`, or, with
/// no address, a link that only reports its clicks.
pub open spec fn spec_link_markup(text: Seq<char>, uri: Seq<char>) -> Seq<char> {
    if uri.len() == 0 {
        "<A ID=\"custom\">"@ + text + "</A>"@
    } else {
        "<A HREF=\""@ + uri + "\">"@ + text + "</A>"@
    }
}

/// The markup a link label shows for its text and its address.
pub fn link_markup(text: &str, uri: &str) -> (m: String)
    ensures
        m@ == spec_link_markup(text@, uri@),
{
    if uri.is_empty() {
        let mut m = String::from_str("<A ID=\"custom\">");
        m.append(text);
        m.append("</A>");
        m
    } else {
        let mut m = String::from_str("<A HREF=\"");
        m.append(uri);
        m.append("\">");
        m.append(text);
        m.append("</A>");
        m
    }
}

/// What a click on a link label does.
#[derive(Debug, Clone, Copy, PartialEq, Eq, Structural)]
pub enum LinkClick {
    /// The address is opened, and the label keeps waiting for a click.
    OpenUri,
    /// The click is reported.
    Clicked,
}

/// The text and the address of a link label.
pub struct LinkLabelText {
    text: String,
    uri: String,
}

impl LinkLabelText {
    /// The text shown.
    pub closed spec fn spec_text(&self) -> Seq<char> {
        self.text@
    }

    /// The address opened on a click; empty when clicks are reported.
    pub closed spec fn spec_uri(&self) -> Seq<char> {
        self.uri@
    }

    /// A label with no text and no address.
    pub fn new() -> (l: Self)
        ensures
            l.spec_text() == Seq::<char>::empty(),
            l.spec_uri() == Seq::<char>::empty(),
    {
        LinkLabelText { text: String::new(), uri: String::new() }
    }

    /// The text shown.
    pub fn text(&self) -> (t: String)
        ensures
            t@ == self.spec_text(),
    {
        self.text.clone()
    }

    /// The address.
    pub fn uri(&self) -> (u: String)
        ensures
            u@ == self.spec_uri(),
    {
        self.uri.clone()
    }

    /// Sets the text; returns the markup the control must now show.
    pub fn set_text(&mut self, s: &str) -> (m: String)
        ensures
            final(self).spec_text() == s@,
            final(self).spec_uri() == old(self).spec_uri(),
            m@ == spec_link_markup(s@, old(self).spec_uri()),
    {
        self.text = String::from_str(s);
        link_markup(self.text.as_str(), self.uri.as_str())
    }

    /// Sets the address; returns the markup the control must now show.
    pub fn set_uri(&mut self, s: &str) -> (m: String)
        ensures
            final(self).spec_uri() == s@,
            final(self).spec_text() == old(self).spec_text(),
            m@ == spec_link_markup(old(self).spec_text(), s@),
    {
        self.uri = String::from_str(s);
        link_markup(self.text.as_str(), self.uri.as_str())
    }

    /// What a click does: opens the address when there is one, and is
    /// reported otherwise.
    pub fn on_click(&self) -> (c: LinkClick)
        ensures
            c == (if self.spec_uri().len() == 0 {
                LinkClick::Clicked
            } else {
                LinkClick::OpenUri
            }),
    {
        if self.uri.as_str().is_empty() {
            LinkClick::Clicked
        } else {
            LinkClick::OpenUri
        }
    }
}

/// Whether the shell opened a document: it answers with a value greater
/// than 32 on success.
pub fn shell_execute_succeeded(result: usize) -> (ok: bool)
    ensures
        ok == (result > 32),
{
    result > 32
}

/// `WM_SETCURSOR`.
pub const WM_SETCURSOR: u32 = 0x20;
/// `WM_SETFONT`.
pub const WM_SETFONT: u32 = 0x30;
/// `WS_CHILD | WS_VISIBLE | SS_LEFT | SS_NOTIFY`: a label reports its clicks,
/// which tooltips need too.
pub const LABEL_STYLE: u32 = 0x4000_0000 | 0x1000_0000 | 0 | 0x100;

/// What the subclass of a static link label does with a message.
#[derive(Debug, Clone, Copy, PartialEq, Eq, Structural)]
pub enum LinkLabelMessage {
    /// Shows the hand cursor and answers 1.
    HandCursor,
    /// Sets the underlined default font in place of the one given.
    UnderlineFont,
    /// Passes the message on.
    PassOn,
}

/// What the subclass of a static link label does with the message `msg`.
pub fn link_label_message(msg: u32) -> (m: LinkLabelMessage)
    ensures
        m == (if msg == WM_SETCURSOR {
            LinkLabelMessage::HandCursor
        } else if msg == WM_SETFONT {
            LinkLabelMessage::UnderlineFont
        } else {
            LinkLabelMessage::PassOn
        }),
{
    if msg == WM_SETCURSOR {
        LinkLabelMessage::HandCursor
    } else if msg == WM_SETFONT {
        LinkLabelMessage::UnderlineFont
    } else {
        LinkLabelMessage::PassOn
    }
}

/// The markup of a link label always shows the text as the link's content,
/// right before the closing tag; a label with an address links to it, one
/// without an address carries the id that reports its clicks instead.
pub proof fn lemma_link_markup_shape(text: Seq<char>, uri: Seq<char>)
    ensures
        ({
            let m = spec_link_markup(text, uri);
            &&& m.len() >= text.len() + 4
            &&& m.subrange(m.len() - text.len() - 4, m.len() as int) == text + "</A>"@
            &&& uri.len() > 0 ==> m.subrange(0, 9) == "<A HREF=\""@ && m.subrange(9, 9 + uri.len() as int)
                == uri
            &&& uri.len() == 0 ==> m.subrange(0, 15) == "<A ID=\"custom\">"@
        }),
{
    reveal_strlit("</A>");
    reveal_strlit("<A HREF=\"");
    reveal_strlit("\">");
    reveal_strlit("<A ID=\"custom\">");
    let m = spec_link_markup(text, uri);
    let close = "</A>"@;
    if uri.len() == 0 {
        let open = "<A ID=\"custom\">"@;
        assert(m =~= open + text + close);
        assert(m.subrange(0, 15) =~= open);
        assert(m.subrange(m.len() - text.len() - 4, m.len() as int) =~= text + close);
    } else {
        let open = "<A HREF=\""@;
        let mid = "\">"@;
        assert(m =~= open + uri + mid + text + close);
        assert(m.subrange(0, 9) =~= open);
        assert(m.subrange(9, 9 + uri.len() as int) =~= uri);
        assert(m.subrange(m.len() - text.len() - 4, m.len() as int) =~= text + close);
    }
}

} // verus!
