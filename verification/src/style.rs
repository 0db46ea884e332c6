//! Window styles of the Win32 controls: how a property of a control is read
//! from its style bits and written back into them.

use vstd::prelude::*;

verus! {

/// `WS_TABSTOP`.
pub const WS_TABSTOP: u32 = 0x0001_0000;
/// `WS_CHILD`.
pub const WS_CHILD: u32 = 0x4000_0000;
/// `WS_VISIBLE`.
pub const WS_VISIBLE: u32 = 0x1000_0000;
/// `WS_VSCROLL`.
pub const WS_VSCROLL: u32 = 0x0020_0000;
/// `ES_CENTER` and `SS_CENTER`.
pub const ALIGN_CENTER: u32 = 1;
/// `ES_RIGHT` and `SS_RIGHT`.
pub const ALIGN_RIGHT: u32 = 2;
/// `ES_LEFT` and `SS_LEFT`.
pub const ALIGN_LEFT: u32 = 0;
/// `PBS_MARQUEE`.
pub const PBS_MARQUEE: u32 = 8;
/// `CBS_AUTOHSCROLL`.
pub const CBS_AUTOHSCROLL: u32 = 0x40;
/// `CBS_HASSTRINGS`.
pub const CBS_HASSTRINGS: u32 = 0x200;
/// `CBS_DROPDOWN`.
pub const CBS_DROPDOWN: u32 = 2;
/// `CBS_DROPDOWNLIST`.
pub const CBS_DROPDOWNLIST: u32 = 3;
/// `LBS_NOTIFY | LBS_HASSTRINGS | LBS_USETABSTOPS | LBS_DISABLENOSCROLL | LBS_NOINTEGRALHEIGHT`.
pub const LBS_BASE: u32 = 0x1 | 0x40 | 0x80 | 0x1000 | 0x100;
/// `LBS_MULTIPLESEL`.
pub const LBS_MULTIPLESEL: u32 = 8;
/// `BS_ICON`.
pub const BS_ICON: u32 = 0x40;
/// `TBS_AUTOTICKS`.
pub const TBS_AUTOTICKS: u32 = 1;
/// `TBS_TOP`.
pub const TBS_TOP: u32 = 4;
/// `TBS_BOTTOM`.
pub const TBS_BOTTOM: u32 = 0;
/// `TBS_BOTH`.
pub const TBS_BOTH: u32 = 8;
/// `TBS_VERT`.
pub const TBS_VERT: u32 = 2;
/// `TBS_HORZ`.
pub const TBS_HORZ: u32 = 0;
/// `SBS_VERT`.
pub const SBS_VERT: u32 = 1;
/// `SBS_HORZ`.
pub const SBS_HORZ: u32 = 0;
/// `WS_EX_TRANSPARENT`.
pub const WS_EX_TRANSPARENT: u32 = 0x20;

/// Horizontal alignment.
#[derive(Debug, Clone, Copy, PartialEq, Eq, Structural)]
pub enum HAlign {
    Left,
    Center,
    Right,
    Stretch,
}

/// The alignment of an edit control or a label with `style`: right when both
/// right bits are set, centred when the centre bit is set, left otherwise.
pub open spec fn spec_halign(style: u32) -> HAlign {
    if style & ALIGN_RIGHT == ALIGN_RIGHT {
        HAlign::Right
    } else if style & ALIGN_CENTER == ALIGN_CENTER {
        HAlign::Center
    } else {
        HAlign::Left
    }
}

/// The alignment of an edit control or a label with `style`.
pub fn halign(style: u32) -> (a: HAlign)
    ensures
        a == spec_halign(style),
{
    if style & ALIGN_RIGHT == ALIGN_RIGHT {
        HAlign::Right
    } else if style & ALIGN_CENTER == ALIGN_CENTER {
        HAlign::Center
    } else {
        HAlign::Left
    }
}

/// The style with the alignment `align`: the right bit is cleared, then the
/// bit of `align` is set (a stretched control is aligned left).
pub open spec fn spec_with_halign(style: u32, align: HAlign) -> u32 {
    let cleared = style & !ALIGN_RIGHT;
    match align {
        HAlign::Center => cleared | ALIGN_CENTER,
        HAlign::Right => cleared | ALIGN_RIGHT,
        _ => cleared | ALIGN_LEFT,
    }
}

/// The style with the alignment `align`.
pub fn with_halign(style: u32, align: HAlign) -> (s: u32)
    ensures
        s == spec_with_halign(style, align),
{
    let cleared = style & !ALIGN_RIGHT;
    match align {
        HAlign::Center => cleared | ALIGN_CENTER,
        HAlign::Right => cleared | ALIGN_RIGHT,
        _ => cleared | ALIGN_LEFT,
    }
}

/// Reading back the alignment of a control gives what was set, a stretched
/// control reading as left-aligned when its style had no centre bit; setting
/// an alignment keeps the other style bits.
pub proof fn lemma_halign_roundtrip(style: u32, align: HAlign)
    ensures
        align == HAlign::Left ==> spec_halign(spec_with_halign(style, align)) == (if style & 1 == 1 {
            HAlign::Center
        } else {
            HAlign::Left
        }),
        align == HAlign::Center ==> spec_halign(spec_with_halign(style, align)) == HAlign::Center,
        align == HAlign::Right ==> spec_halign(spec_with_halign(style, align)) == HAlign::Right,
        spec_with_halign(style, align) & !3u32 == style & !3u32,
{
    let c = style & !2u32;
    assert(c & 2u32 != 2u32) by (bit_vector)
        requires
            c == style & !2u32,
    ;
    assert((c | 1u32) & 2u32 != 2u32 && (c | 1u32) & 1u32 == 1u32) by (bit_vector)
        requires
            c == style & !2u32,
    ;
    assert((c | 2u32) & 2u32 == 2u32) by (bit_vector);
    assert((c | 0u32) == c) by (bit_vector);
    assert(c & 1u32 == style & 1u32) by (bit_vector)
        requires
            c == style & !2u32,
    ;
    assert((c | 1u32) & !3u32 == style & !3u32 && (c | 2u32) & !3u32 == style & !3u32 && c & !3u32
        == style & !3u32) by (bit_vector)
        requires
            c == style & !2u32,
    ;
}

/// Whether a progress bar with `style` is indeterminate.
pub fn is_indeterminate(style: u32) -> (b: bool)
    ensures
        b == (style & PBS_MARQUEE != 0),
{
    style & PBS_MARQUEE != 0
}

/// The style of a progress bar made indeterminate or not.
pub open spec fn spec_with_indeterminate(style: u32, v: bool) -> u32 {
    if v {
        style | PBS_MARQUEE
    } else {
        style & !PBS_MARQUEE
    }
}

/// The style of a progress bar made indeterminate or not.
pub fn with_indeterminate(style: u32, v: bool) -> (s: u32)
    ensures
        s == spec_with_indeterminate(style, v),
{
    if v {
        style | PBS_MARQUEE
    } else {
        style & !PBS_MARQUEE
    }
}

/// A progress bar reads back as indeterminate exactly when it was made so,
/// and the other style bits are kept.
pub proof fn lemma_indeterminate_roundtrip(style: u32, v: bool)
    ensures
        (spec_with_indeterminate(style, v) & PBS_MARQUEE != 0) == v,
        spec_with_indeterminate(style, v) & !8u32 == style & !8u32,
{
    assert((style | 8u32) & 8u32 != 0u32 && (style & !8u32) & 8u32 == 0u32) by (bit_vector);
    assert((style | 8u32) & !8u32 == style & !8u32 && (style & !8u32) & !8u32 == style & !8u32)
        by (bit_vector);
}

/// The style of a combo box: an editable one is a drop-down, hidden until it
/// is placed; a fixed one is a visible drop-down list.
pub fn combo_box_style(editable: bool) -> (s: u32)
    ensures
        s == (WS_TABSTOP | WS_CHILD | CBS_AUTOHSCROLL | CBS_HASSTRINGS) | (if editable {
            CBS_DROPDOWN
        } else {
            WS_VISIBLE | CBS_DROPDOWNLIST
        }),
{
    let base = WS_TABSTOP | WS_CHILD | CBS_AUTOHSCROLL | CBS_HASSTRINGS;
    if editable {
        base | CBS_DROPDOWN
    } else {
        base | (WS_VISIBLE | CBS_DROPDOWNLIST)
    }
}

/// The style of a list box, with multiple selection or not.
pub fn list_box_style(multiple: bool) -> (s: u32)
    ensures
        s == (WS_TABSTOP | WS_VISIBLE | WS_CHILD | WS_VSCROLL | LBS_BASE) | (if multiple {
            LBS_MULTIPLESEL
        } else {
            0
        }),
{
    let base = WS_TABSTOP | WS_VISIBLE | WS_CHILD | WS_VSCROLL | LBS_BASE;
    if multiple {
        base | LBS_MULTIPLESEL
    } else {
        base | 0
    }
}

/// The style of a push button, showing its icon alone or not.
pub open spec fn spec_button_style(icon: bool) -> u32 {
    (WS_TABSTOP | WS_VISIBLE | WS_CHILD) | (if icon { BS_ICON } else { 0 })
}

/// The style of a push button, showing its icon alone or not.
pub fn button_style(icon: bool) -> (s: u32)
    ensures
        s == spec_button_style(icon),
{
    let base = WS_TABSTOP | WS_VISIBLE | WS_CHILD;
    if icon {
        base | BS_ICON
    } else {
        base | 0
    }
}

/// `BS_RADIOBUTTON`.
pub const BS_RADIOBUTTON: u32 = 4;
/// `BST_CHECKED`.
pub const BST_CHECKED: usize = 1;
/// `BST_UNCHECKED`.
pub const BST_UNCHECKED: usize = 0;

/// The style of a radio button.
pub fn radio_button_style() -> (s: u32)
    ensures
        s == WS_TABSTOP | WS_VISIBLE | WS_CHILD | BS_RADIOBUTTON,
{
    WS_TABSTOP | WS_VISIBLE | WS_CHILD | BS_RADIOBUTTON
}

/// The check state a radio button is set to.
pub fn check_state(checked: bool) -> (s: usize)
    ensures
        s == (if checked { BST_CHECKED } else { BST_UNCHECKED }),
{
    if checked {
        BST_CHECKED
    } else {
        BST_UNCHECKED
    }
}

/// Whether a radio button that reports the check state `state` is checked.
pub fn is_checked(state: isize) -> (b: bool)
    ensures
        b == (state == 1),
{
    state == 1
}

/// Whether a button shows its icon alone: it has an icon and no text.
pub fn icon_style_needed(has_icon: bool, text_is_empty: bool) -> (b: bool)
    ensures
        b == (has_icon && text_is_empty),
{
    has_icon && text_is_empty
}

/// What a push button knows of its look: whether it has an icon, whether its
/// text is empty, and whether its window was created with `BS_ICON`.
pub struct ButtonIconState {
    has_icon: bool,
    text_empty: bool,
    bs_icon: bool,
}

impl ButtonIconState {
    /// Whether the button has an icon.
    pub closed spec fn spec_has_icon(&self) -> bool {
        self.has_icon
    }

    /// Whether the text of the button is empty.
    pub closed spec fn spec_text_empty(&self) -> bool {
        self.text_empty
    }

    /// Whether the window of the button has the `BS_ICON` style.
    pub closed spec fn spec_bs_icon(&self) -> bool {
        self.bs_icon
    }

    /// A new button: no icon, an empty text, and no `BS_ICON` style.
    pub fn new() -> (b: Self)
        ensures
            !b.spec_has_icon(),
            b.spec_text_empty(),
            !b.spec_bs_icon(),
            b.spec_bs_icon() == (b.spec_has_icon() && b.spec_text_empty()),
    {
        ButtonIconState { has_icon: false, text_empty: true, bs_icon: false }
    }

    /// Whether the window of the button has the `BS_ICON` style.
    pub fn bs_icon(&self) -> (b: bool)
        ensures
            b == self.spec_bs_icon(),
    {
        self.bs_icon
    }

    /// Brings the style up to date: when the style the button needs differs
    /// from the one its window has, the window must be recreated with the
    /// style returned, carrying its state over; `None` leaves it as it is.
    fn update(&mut self) -> (recreate: Option<u32>)
        ensures
            final(self).spec_has_icon() == old(self).spec_has_icon(),
            final(self).spec_text_empty() == old(self).spec_text_empty(),
            final(self).spec_bs_icon() == (final(self).spec_has_icon()
                && final(self).spec_text_empty()),
            recreate == (if old(self).spec_bs_icon() != final(self).spec_bs_icon() {
                Some(spec_button_style(final(self).spec_bs_icon()))
            } else {
                None
            }),
    {
        let icon = icon_style_needed(self.has_icon, self.text_empty);
        if self.bs_icon != icon {
            self.bs_icon = icon;
            Some(button_style(icon))
        } else {
            None
        }
    }

    /// The text of the button was set; `text_empty` tells whether it is empty.
    /// Returns the style to recreate the window with, if it must change.
    pub fn set_text(&mut self, text_empty: bool) -> (recreate: Option<u32>)
        ensures
            final(self).spec_text_empty() == text_empty,
            final(self).spec_has_icon() == old(self).spec_has_icon(),
            final(self).spec_bs_icon() == (final(self).spec_has_icon()
                && final(self).spec_text_empty()),
            recreate == (if old(self).spec_bs_icon() != final(self).spec_bs_icon() {
                Some(spec_button_style(final(self).spec_bs_icon()))
            } else {
                None
            }),
    {
        self.text_empty = text_empty;
        self.update()
    }

    /// The icon of the button was set (`has_icon`) or cleared. Returns the
    /// style to recreate the window with, if it must change.
    pub fn set_icon(&mut self, has_icon: bool) -> (recreate: Option<u32>)
        ensures
            final(self).spec_has_icon() == has_icon,
            final(self).spec_text_empty() == old(self).spec_text_empty(),
            final(self).spec_bs_icon() == (final(self).spec_has_icon()
                && final(self).spec_text_empty()),
            recreate == (if old(self).spec_bs_icon() != final(self).spec_bs_icon() {
                Some(spec_button_style(final(self).spec_bs_icon()))
            } else {
                None
            }),
    {
        self.has_icon = has_icon;
        self.update()
    }
}

/// Where the ticks of a slider are drawn.
#[derive(Debug, Clone, Copy, PartialEq, Eq, Structural)]
pub enum TickPosition {
    NoTicks,
    TopLeft,
    BottomRight,
    Both,
}

/// The tick bits of a slider.
pub open spec fn spec_tick_bits(tick: TickPosition) -> u32 {
    match tick {
        TickPosition::NoTicks => 0,
        TickPosition::TopLeft => TBS_TOP,
        TickPosition::BottomRight => TBS_BOTTOM,
        TickPosition::Both => TBS_BOTH,
    }
}

/// The style a slider is created with for its orientation and its ticks.
pub fn slider_style(vertical: bool, tick: TickPosition) -> (s: u32)
    ensures
        s == (WS_VISIBLE | spec_tick_bits(tick)) | (if vertical { TBS_VERT } else { TBS_HORZ }),
{
    let ticks = match tick {
        TickPosition::NoTicks => 0,
        TickPosition::TopLeft => TBS_TOP,
        TickPosition::BottomRight => TBS_BOTTOM,
        TickPosition::Both => TBS_BOTH,
    };
    (WS_VISIBLE | ticks) | (if vertical { TBS_VERT } else { TBS_HORZ })
}

/// The thickness of a slider, in logical pixels, for its ticks.
pub fn slider_thickness(tick: TickPosition) -> (t: u32)
    ensures
        t == spec_slider_thickness(tick),
{
    match tick {
        TickPosition::NoTicks => 20,
        TickPosition::TopLeft | TickPosition::BottomRight => 30,
        TickPosition::Both => 40,
    }
}

/// The thickness of a slider, in logical pixels, for its ticks.
pub open spec fn spec_slider_thickness(tick: TickPosition) -> u32 {
    match tick {
        TickPosition::NoTicks => 20u32,
        TickPosition::TopLeft | TickPosition::BottomRight => 30u32,
        TickPosition::Both => 40u32,
    }
}

/// The preferred size `(width, height)` of a slider, in logical pixels: its
/// thickness across, and no length along, its axis; a vertical slider is as
/// wide as its thickness, a horizontal one as high.
pub fn slider_preferred_size(vertical: bool, tick: TickPosition) -> (s: (u32, u32))
    ensures
        s == (if vertical {
            (spec_slider_thickness(tick), 0u32)
        } else {
            (0u32, spec_slider_thickness(tick))
        }),
{
    let t = slider_thickness(tick);
    if vertical {
        (t, 0)
    } else {
        (0, t)
    }
}

/// The style a scroll bar is created with for its orientation.
pub fn scroll_bar_style(vertical: bool) -> (s: u32)
    ensures
        s == (if vertical { SBS_VERT } else { SBS_HORZ }) | WS_VISIBLE,
{
    (if vertical { SBS_VERT } else { SBS_HORZ }) | WS_VISIBLE
}

/// Whether a label with the extended style `ex_style` is transparent.
pub fn is_transparent(ex_style: u32) -> (b: bool)
    ensures
        b == (ex_style & WS_EX_TRANSPARENT != 0),
{
    ex_style & WS_EX_TRANSPARENT != 0
}

/// The extended style of a label made transparent or not.
pub fn transparent_ex_style(v: bool) -> (s: u32)
    ensures
        s == (if v { WS_EX_TRANSPARENT } else { 0 }),
{
    if v {
        WS_EX_TRANSPARENT
    } else {
        0
    }
}

/// `NSTextAlignmentLeft` on UIKit.
pub const NS_TEXT_ALIGNMENT_LEFT: isize = 0;
/// `NSTextAlignmentCenter` on UIKit.
pub const NS_TEXT_ALIGNMENT_CENTER: isize = 1;
/// `NSTextAlignmentRight` on UIKit.
pub const NS_TEXT_ALIGNMENT_RIGHT: isize = 2;
/// `NSTextAlignmentJustified` on UIKit.
pub const NS_TEXT_ALIGNMENT_JUSTIFIED: isize = 3;

/// The UIKit text alignment of an alignment: a stretched text is justified.
pub open spec fn spec_text_alignment(align: HAlign) -> isize {
    match align {
        HAlign::Left => NS_TEXT_ALIGNMENT_LEFT,
        HAlign::Center => NS_TEXT_ALIGNMENT_CENTER,
        HAlign::Right => NS_TEXT_ALIGNMENT_RIGHT,
        HAlign::Stretch => NS_TEXT_ALIGNMENT_JUSTIFIED,
    }
}

/// The UIKit text alignment of an alignment.
pub fn text_alignment(align: HAlign) -> (a: isize)
    ensures
        a == spec_text_alignment(align),
{
    match align {
        HAlign::Left => NS_TEXT_ALIGNMENT_LEFT,
        HAlign::Center => NS_TEXT_ALIGNMENT_CENTER,
        HAlign::Right => NS_TEXT_ALIGNMENT_RIGHT,
        HAlign::Stretch => NS_TEXT_ALIGNMENT_JUSTIFIED,
    }
}

/// The alignment of a UIKit text alignment: natural and any other reads as
/// left.
pub open spec fn spec_halign_of_text_alignment(a: isize) -> HAlign {
    if a == NS_TEXT_ALIGNMENT_RIGHT {
        HAlign::Right
    } else if a == NS_TEXT_ALIGNMENT_CENTER {
        HAlign::Center
    } else if a == NS_TEXT_ALIGNMENT_JUSTIFIED {
        HAlign::Stretch
    } else {
        HAlign::Left
    }
}

/// The alignment of a UIKit text alignment.
pub fn halign_of_text_alignment(a: isize) -> (h: HAlign)
    ensures
        h == spec_halign_of_text_alignment(a),
{
    if a == NS_TEXT_ALIGNMENT_RIGHT {
        HAlign::Right
    } else if a == NS_TEXT_ALIGNMENT_CENTER {
        HAlign::Center
    } else if a == NS_TEXT_ALIGNMENT_JUSTIFIED {
        HAlign::Stretch
    } else {
        HAlign::Left
    }
}

/// On UIKit, every alignment set on a text view reads back as itself.
pub proof fn lemma_text_alignment_roundtrip(align: HAlign)
    ensures
        spec_halign_of_text_alignment(spec_text_alignment(align)) == align,
{
}

/// Each alignment is shown with its own UIKit alignment: left as
/// `NSTextAlignmentLeft` (0), centred as `NSTextAlignmentCenter` (1), right
/// as `NSTextAlignmentRight` (2) and stretched as `NSTextAlignmentJustified`
/// (3); each of these reads back as its alignment, and any other value,
/// such as `NSTextAlignmentNatural` (4), reads as left.
pub proof fn lemma_text_alignment_table(a: isize)
    ensures
        spec_text_alignment(HAlign::Left) == 0,
        spec_text_alignment(HAlign::Center) == 1,
        spec_text_alignment(HAlign::Right) == 2,
        spec_text_alignment(HAlign::Stretch) == 3,
        spec_halign_of_text_alignment(1) == HAlign::Center,
        spec_halign_of_text_alignment(2) == HAlign::Right,
        spec_halign_of_text_alignment(3) == HAlign::Stretch,
        a != 1 && a != 2 && a != 3 ==> spec_halign_of_text_alignment(a) == HAlign::Left,
{
}

/// The tick bits a slider is made with: `TBS_TOP` (4) for ticks above or
/// left, `TBS_BOTH` (8) for ticks on both sides, and no bit for ticks below
/// or right (`TBS_BOTTOM` is 0) nor for no ticks; ticks above and ticks
/// below give different styles. The rest of the style is `WS_VISIBLE` and,
/// for a vertical slider, `TBS_VERT` (2).
pub proof fn lemma_slider_style_table(vertical: bool)
    ensures
        spec_tick_bits(TickPosition::TopLeft) == 4,
        spec_tick_bits(TickPosition::BottomRight) == 0,
        spec_tick_bits(TickPosition::Both) == 8,
        spec_tick_bits(TickPosition::NoTicks) == 0,
        spec_tick_bits(TickPosition::TopLeft) != spec_tick_bits(TickPosition::BottomRight),
        spec_tick_bits(TickPosition::Both) != spec_tick_bits(TickPosition::TopLeft),
        spec_tick_bits(TickPosition::Both) != spec_tick_bits(TickPosition::BottomRight),
        (WS_VISIBLE | spec_tick_bits(TickPosition::BottomRight)) | (if vertical {
            TBS_VERT
        } else {
            TBS_HORZ
        }) == (if vertical { 0x1000_0002u32 } else { 0x1000_0000u32 }),
        (WS_VISIBLE | spec_tick_bits(TickPosition::TopLeft)) | (if vertical {
            TBS_VERT
        } else {
            TBS_HORZ
        }) == (if vertical { 0x1000_0006u32 } else { 0x1000_0004u32 }),
        (WS_VISIBLE | spec_tick_bits(TickPosition::Both)) | (if vertical {
            TBS_VERT
        } else {
            TBS_HORZ
        }) == (if vertical { 0x1000_000Au32 } else { 0x1000_0008u32 }),
{
    assert(0x1000_0000u32 | 0u32 | 2u32 == 0x1000_0002u32) by (bit_vector);
    assert(0x1000_0000u32 | 0u32 | 0u32 == 0x1000_0000u32) by (bit_vector);
    assert(0x1000_0000u32 | 4u32 | 2u32 == 0x1000_0006u32) by (bit_vector);
    assert(0x1000_0000u32 | 4u32 | 0u32 == 0x1000_0004u32) by (bit_vector);
    assert(0x1000_0000u32 | 8u32 | 2u32 == 0x1000_000Au32) by (bit_vector);
    assert(0x1000_0000u32 | 8u32 | 0u32 == 0x1000_0008u32) by (bit_vector);
}

/// A slider is 20 logical pixels thick without ticks, 30 with ticks on one
/// side, whichever it is, and 40 with ticks on both sides: more ticks make
/// it thicker.
pub proof fn lemma_slider_thickness_table()
    ensures
        spec_slider_thickness(TickPosition::NoTicks) == 20,
        spec_slider_thickness(TickPosition::TopLeft) == 30,
        spec_slider_thickness(TickPosition::BottomRight) == 30,
        spec_slider_thickness(TickPosition::Both) == 40,
{
}

/// The alignment bits of an edit control or a label: the right bit (2) makes
/// it right-aligned whatever else is set, the centre bit (1) alone makes it
/// centred, neither leaves it left-aligned; setting an alignment puts exactly
/// its bits in the low two: 2 for right, 1 for centre, 0 for left or
/// stretched.
pub proof fn lemma_halign_bits(style: u32, align: HAlign)
    ensures
        style & 2 == 2 ==> spec_halign(style) == HAlign::Right,
        style & 3 == 1 ==> spec_halign(style) == HAlign::Center,
        style & 3 == 0 ==> spec_halign(style) == HAlign::Left,
        align == HAlign::Right ==> spec_with_halign(style, align) & 2 == 2,
        align == HAlign::Center ==> spec_with_halign(style, align) & 3 == (style & 1) | 1,
        (align == HAlign::Left || align == HAlign::Stretch) ==> spec_with_halign(style, align) & 3
            == style & 1,
{
    assert(style & 3u32 == 1u32 ==> style & 2u32 != 2u32 && style & 1u32 == 1u32) by (bit_vector);
    assert(style & 3u32 == 0u32 ==> style & 2u32 != 2u32 && style & 1u32 != 1u32) by (bit_vector);
    assert((style & !2u32 | 2u32) & 2u32 == 2u32) by (bit_vector);
    assert((style & !2u32 | 1u32) & 3u32 == (style & 1u32) | 1u32) by (bit_vector);
    assert((style & !2u32 | 0u32) & 3u32 == style & 1u32) by (bit_vector);
}

} // verus!
