//! Canvases: the two action buffers a UIKit canvas draws from, and how a
//! Win32 canvas reads mouse messages.

use vstd::prelude::*;

verus! {

/// The drawing actions of a canvas: those the view displays, and a spare
/// buffer a new drawing context starts from, which is always empty (only
/// the room it holds is reused).
pub struct ActionBuffers<T> {
    actions: Vec<T>,
    spare: Vec<T>,
}

impl<T> ActionBuffers<T> {
    /// The spare buffer holds no action.
    #[verifier::type_invariant]
    spec fn spare_is_empty(&self) -> bool {
        self.spare@.len() == 0
    }

    /// The actions the view displays.
    pub closed spec fn spec_displayed(&self) -> Seq<T> {
        self.actions@
    }

    /// The actions in the spare buffer.
    pub closed spec fn spec_spare(&self) -> Seq<T> {
        self.spare@
    }

    /// A canvas that displays nothing.
    pub fn new() -> (b: Self)
        ensures
            b.spec_displayed() == Seq::<T>::empty(),
            b.spec_spare() == Seq::<T>::empty(),
    {
        ActionBuffers { actions: Vec::new(), spare: Vec::new() }
    }

    /// The actions the view displays.
    pub fn displayed(&self) -> (a: &Vec<T>)
        ensures
            a@ == self.spec_displayed(),
            self.spec_spare() == Seq::<T>::empty(),
    {
        proof {
            use_type_invariant(self);
        }
        &self.actions
    }

    /// Takes the spare buffer for a new drawing context, leaving an empty one;
    /// the buffer taken holds no action.
    pub fn take_buffer(&mut self) -> (buf: Vec<T>)
        ensures
            buf@ == Seq::<T>::empty(),
            final(self).spec_spare() == Seq::<T>::empty(),
            final(self).spec_displayed() == old(self).spec_displayed(),
    {
        proof {
            use_type_invariant(&*self);
        }
        let mut buf: Vec<T> = Vec::new();
        std::mem::swap(&mut buf, &mut self.spare);
        buf
    }

    /// Ends a drawing: the actions drawn in `buf` become the displayed ones,
    /// the buffer of the actions displayed until now is emptied and kept as
    /// the spare one, and `buf` gets the spare buffer, which holds no action.
    pub fn swap_buffer(&mut self, buf: &mut Vec<T>)
        ensures
            final(self).spec_displayed() == old(buf)@,
            final(self).spec_spare() == Seq::<T>::empty(),
            final(buf)@ == Seq::<T>::empty(),
    {
        proof {
            use_type_invariant(&*self);
        }
        let mut previous: Vec<T> = Vec::new();
        std::mem::swap(&mut previous, &mut self.actions);
        std::mem::swap(&mut self.actions, buf);
        previous.clear();
        std::mem::swap(&mut self.spare, &mut previous);
        std::mem::swap(buf, &mut previous);
    }
}

/// The actions a drawing context records, until it ends once.
pub struct DrawingSession<T> {
    actions: Vec<T>,
    ended: bool,
}

impl<T> DrawingSession<T> {
    /// The actions drawn so far.
    pub closed spec fn spec_actions(&self) -> Seq<T> {
        self.actions@
    }

    /// Whether the drawing has ended.
    pub closed spec fn spec_ended(&self) -> bool {
        self.ended
    }

    /// A drawing that starts from the spare buffer of the canvas, with no
    /// action drawn yet.
    pub fn begin(buffers: &mut ActionBuffers<T>) -> (s: Self)
        ensures
            s.spec_actions() == Seq::<T>::empty(),
            !s.spec_ended(),
            final(buffers).spec_spare() == Seq::<T>::empty(),
            final(buffers).spec_displayed() == old(buffers).spec_displayed(),
    {
        DrawingSession { actions: buffers.take_buffer(), ended: false }
    }

    /// Draws one more action.
    pub fn push(&mut self, action: T)
        ensures
            final(self).spec_actions() == old(self).spec_actions().push(action),
            final(self).spec_ended() == old(self).spec_ended(),
    {
        self.actions.push(action);
    }

    /// Ends the drawing: the first time, the canvas displays the actions
    /// drawn and must be redrawn (the result is `true`); any later time,
    /// nothing happens.
    pub fn end(&mut self, buffers: &mut ActionBuffers<T>) -> (now: bool)
        ensures
            now == !old(self).spec_ended(),
            final(self).spec_ended(),
            final(buffers).spec_spare() == Seq::<T>::empty(),
            now ==> final(buffers).spec_displayed() == old(self).spec_actions()
                && final(self).spec_actions() == Seq::<T>::empty(),
            !now ==> final(buffers).spec_displayed() == old(buffers).spec_displayed()
                && final(self).spec_actions() == old(self).spec_actions(),
    {
        proof {
            use_type_invariant(&*buffers);
        }
        if self.ended {
            false
        } else {
            buffers.swap_buffer(&mut self.actions);
            self.ended = true;
            true
        }
    }
}

/// `WM_MOUSEMOVE`.
pub const WM_MOUSEMOVE: u32 = 0x200;
/// `WM_LBUTTONDOWN`.
pub const WM_LBUTTONDOWN: u32 = 0x201;
/// `WM_LBUTTONUP`.
pub const WM_LBUTTONUP: u32 = 0x202;
/// `WM_RBUTTONDOWN`.
pub const WM_RBUTTONDOWN: u32 = 0x204;
/// `WM_RBUTTONUP`.
pub const WM_RBUTTONUP: u32 = 0x205;
/// `WM_MBUTTONDOWN`.
pub const WM_MBUTTONDOWN: u32 = 0x207;
/// `WM_MBUTTONUP`.
pub const WM_MBUTTONUP: u32 = 0x208;

/// A mouse button.
#[derive(Debug, Clone, Copy, PartialEq, Eq, Structural)]
pub enum MouseButton {
    Left,
    Right,
    Middle,
}

/// The button a mouse message is about, and whether it went down (`true`) or
/// up; `None` for any other message.
pub open spec fn spec_mouse_button(msg: u32) -> Option<(MouseButton, bool)> {
    if msg == WM_LBUTTONDOWN {
        Some((MouseButton::Left, true))
    } else if msg == WM_RBUTTONDOWN {
        Some((MouseButton::Right, true))
    } else if msg == WM_MBUTTONDOWN {
        Some((MouseButton::Middle, true))
    } else if msg == WM_LBUTTONUP {
        Some((MouseButton::Left, false))
    } else if msg == WM_RBUTTONUP {
        Some((MouseButton::Right, false))
    } else if msg == WM_MBUTTONUP {
        Some((MouseButton::Middle, false))
    } else {
        None
    }
}

/// The button a mouse message is about, and whether it went down.
pub fn mouse_button(msg: u32) -> (r: Option<(MouseButton, bool)>)
    ensures
        r == spec_mouse_button(msg),
{
    if msg == WM_LBUTTONDOWN {
        Some((MouseButton::Left, true))
    } else if msg == WM_RBUTTONDOWN {
        Some((MouseButton::Right, true))
    } else if msg == WM_MBUTTONDOWN {
        Some((MouseButton::Middle, true))
    } else if msg == WM_LBUTTONUP {
        Some((MouseButton::Left, false))
    } else if msg == WM_RBUTTONUP {
        Some((MouseButton::Right, false))
    } else if msg == WM_MBUTTONUP {
        Some((MouseButton::Middle, false))
    } else {
        None
    }
}

/// Each button message names its own button: left for 0x201 and 0x202,
/// right for 0x204 and 0x205, middle for 0x207 and 0x208; the first of each
/// pair is the button going down and the second the button going up. Any
/// other message, such as a move (0x200), names no button.
pub proof fn lemma_mouse_button_table(msg: u32)
    ensures
        spec_mouse_button(0x201) == Some((MouseButton::Left, true)),
        spec_mouse_button(0x202) == Some((MouseButton::Left, false)),
        spec_mouse_button(0x204) == Some((MouseButton::Right, true)),
        spec_mouse_button(0x205) == Some((MouseButton::Right, false)),
        spec_mouse_button(0x207) == Some((MouseButton::Middle, true)),
        spec_mouse_button(0x208) == Some((MouseButton::Middle, false)),
        spec_mouse_button(msg) is Some <==> (msg == 0x201 || msg == 0x202 || msg == 0x204 || msg
            == 0x205 || msg == 0x207 || msg == 0x208),
        spec_mouse_button(msg) matches Some((b, d)) ==> d == (msg == 0x201 || msg == 0x204 || msg
            == 0x207),
{
}

/// The release of a button names the same button as its press, the message
/// right after it, and only the direction differs.
pub proof fn lemma_press_and_release_pair(msg: u32)
    requires
        msg == 0x201 || msg == 0x204 || msg == 0x207,
    ensures
        spec_mouse_button(msg) matches Some((b1, d1)) && spec_mouse_button((msg + 1) as u32)
            matches Some((b2, d2)) && b1 == b2 && d1 && !d2,
{
}

/// The point, in device pixels of the parent, that a mouse message carries
/// in its `lparam`: the low word is x, the bits above it are y.
pub fn mouse_point(lparam: isize) -> (p: (i32, i32))
    ensures
        p == ((lparam & 0xFFFF) as i32, (lparam >> 16isize) as i32),
{
    ((lparam & 0xFFFF) as i32, (lparam >> 16isize) as i32)
}

} // verus!
