//! The tooltips of Win32 windows: one tooltip control per window that has a
//! tooltip, holding the text it shows, and the message each change sends it.

use vstd::prelude::*;
use std::collections::BTreeMap;
use crate::text::{
    before_nul, crlf_to_lf, fix_crlf, has_crlf, has_no_nul, lemma_control_text_reads_back,
    spec_control_text, spec_crlf_to_lf,
};

verus! {

broadcast use vstd::std_specs::btree::group_btree_axioms;

/// The message a tooltip control is sent about its tool.
#[derive(Debug, Clone, Copy, PartialEq, Eq, Structural)]
pub enum ToolMessage {
    /// `TTM_ADDTOOLW`: the tool is added with its text.
    Add,
    /// `TTM_UPDATETIPTEXTW`: the text of the tool is updated.
    Update,
    /// `TTM_DELTOOLW`: the tool is deleted.
    Delete,
}

/// What setting the tooltip of a window does.
#[derive(Debug, Clone, PartialEq, Eq)]
pub enum TooltipChange {
    /// The tooltip control of the window, if it had one, is destroyed; its
    /// tool is deleted then.
    Removed { existed: bool },
    /// The tooltip control is created first when the window had none
    /// (`created`), then sent `message` with the text it now holds.
    Shown { created: bool, message: ToolMessage, text: String },
}

/// The tooltip texts of the windows that have a tooltip, by window handle,
/// as the tooltip controls hold them: with carriage returns before the line
/// feeds, and cut at the first nul character.
pub struct Tooltips {
    map: BTreeMap<usize, String>,
}

/// The text a tooltip control holds for the text `s`.
pub open spec fn held_text(s: Seq<char>) -> Seq<char> {
    spec_control_text(s)
}

impl Tooltips {
    /// The text each window's tooltip holds.
    pub closed spec fn spec_texts(&self) -> Map<usize, Seq<char>> {
        Map::new(|h: usize| self.map@.contains_key(h), |h: usize| self.map@[h]@)
    }

    /// No window has a tooltip.
    pub fn new() -> (t: Self)
        ensures
            t.spec_texts() == Map::<usize, Seq<char>>::empty(),
    {
        let t = Tooltips { map: BTreeMap::new() };
        assert(t.spec_texts() =~= Map::<usize, Seq<char>>::empty());
        t
    }

    /// Sets the tooltip of the window `hwnd` to `s`: an empty text removes
    /// the tooltip; any other text creates the tooltip control if there is
    /// none, then adds the tool when the control held no text, deletes it
    /// when the new text is empty once cut at its first nul, and updates it
    /// otherwise.
    pub fn set_tooltip(&mut self, hwnd: usize, s: &str) -> (c: TooltipChange)
        ensures
            s@.len() == 0 ==> final(self).spec_texts() == old(self).spec_texts().remove(hwnd)
                && c == (TooltipChange::Removed {
                existed: old(self).spec_texts().contains_key(hwnd),
            }),
            s@.len() > 0 ==> {
                let had = old(self).spec_texts().contains_key(hwnd);
                let was_empty = !had || old(self).spec_texts()[hwnd].len() == 0;
                let text = held_text(s@);
                &&& final(self).spec_texts() == old(self).spec_texts().insert(hwnd, text)
                &&& c matches TooltipChange::Shown { created, message, text: t } && created == !had
                    && t@ == text && message == (if text.len() == 0 {
                    ToolMessage::Delete
                } else if was_empty {
                    ToolMessage::Add
                } else {
                    ToolMessage::Update
                })
            },
    {
        if s.is_empty() {
            proof {
                assert(s@.len() == 0);
            }
            let existed = self.map.remove(&hwnd).is_some();
            assert(self.spec_texts() =~= old(self).spec_texts().remove(hwnd));
            TooltipChange::Removed { existed }
        } else {
            proof {
                assert(s@.len() > 0);
            }
            let (created, was_empty) = match self.map.get(&hwnd) {
                Some(t) => (false, t.as_str().is_empty()),
                None => (true, true),
            };
            let fixed = fix_crlf(s);
            let text = before_nul(fixed.as_str());
            let message = if text.as_str().is_empty() {
                ToolMessage::Delete
            } else if was_empty {
                ToolMessage::Add
            } else {
                ToolMessage::Update
            };
            let shown = text.clone();
            self.map.insert(hwnd, text);
            assert(self.spec_texts() =~= old(self).spec_texts().insert(hwnd, held_text(s@)));
            TooltipChange::Shown { created, message, text: shown }
        }
    }

    /// The tooltip of the window `hwnd`, with its line ends read back as
    /// line feeds; `None` when the window has no tooltip.
    pub fn tooltip(&self, hwnd: usize) -> (t: Option<String>)
        ensures
            !self.spec_texts().contains_key(hwnd) ==> t is None,
            self.spec_texts().contains_key(hwnd) ==> (t matches Some(s) && s@ == spec_crlf_to_lf(
                self.spec_texts()[hwnd],
            )),
    {
        match self.map.get(&hwnd) {
            Some(text) => Some(crlf_to_lf(text.as_str())),
            None => None,
        }
    }

    /// Removes the tooltip of the window `hwnd`; returns whether it had one,
    /// whose tool is then deleted.
    pub fn remove_tooltip(&mut self, hwnd: usize) -> (existed: bool)
        ensures
            existed == old(self).spec_texts().contains_key(hwnd),
            final(self).spec_texts() == old(self).spec_texts().remove(hwnd),
    {
        let existed = self.map.remove(&hwnd).is_some();
        assert(self.spec_texts() =~= old(self).spec_texts().remove(hwnd));
        existed
    }
}

/// A tooltip reads back as the text it was set to, when that text holds no
/// nul character and no carriage return right before a line feed.
pub proof fn lemma_tooltip_reads_back(s: Seq<char>)
    requires
        has_no_nul(s),
        !has_crlf(s),
    ensures
        spec_crlf_to_lf(held_text(s)) == s,
{
    lemma_control_text_reads_back(s);
}

} // verus!
