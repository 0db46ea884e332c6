//! Icons of Win32 buttons and labels: the bitmap an image becomes, the size
//! it is made at, and the icons kept per window so that they can be made
//! again when the DPI changes.

use vstd::prelude::*;
use std::collections::BTreeMap;

verus! {

broadcast use vstd::std_specs::btree::group_btree_axioms;

/// `BI_BITFIELDS`.
pub const BI_BITFIELDS: u32 = 3;
/// `LCS_WINDOWS_COLOR_SPACE` (`'Win '`).
pub const LCS_WINDOWS_COLOR_SPACE: u32 = 0x5769_6E20;

/// The header of the 32-bit top-down bitmap an icon is drawn from.
#[derive(Debug, Clone, Copy, PartialEq, Eq, Structural)]
pub struct IconBitmapHeader {
    pub width: i32,
    /// Negative: the rows go from the top down.
    pub height: i32,
    pub planes: u16,
    pub bit_count: u16,
    pub compression: u32,
    /// The size of the pixels, four bytes each.
    pub size_image: u32,
    pub red_mask: u32,
    pub green_mask: u32,
    pub blue_mask: u32,
    pub alpha_mask: u32,
    pub color_space: u32,
}

/// The header of the bitmap of an icon of `width` by `height` pixels.
pub fn icon_bitmap_header(width: i32, height: i32) -> (h: IconBitmapHeader)
    requires
        0 <= width,
        0 <= height,
        width * height * 4 <= i32::MAX,
    ensures
        h.width == width,
        h.height == -height,
        h.planes == 1,
        h.bit_count == 32,
        h.compression == BI_BITFIELDS,
        h.size_image == width * height * 4,
        h.red_mask == 0x00FF_0000,
        h.green_mask == 0x0000_FF00,
        h.blue_mask == 0x0000_00FF,
        h.alpha_mask == 0xFF00_0000,
        h.color_space == LCS_WINDOWS_COLOR_SPACE,
{
    proof {
        assert(0 <= width * height) by (nonlinear_arith)
            requires
                0 <= width,
                0 <= height,
        ;
        assert(width * height <= width * height * 4);
    }
    let area = width * height;
    let bytes = area * 4;
    IconBitmapHeader {
        width,
        height: -height,
        planes: 1,
        bit_count: 32,
        compression: BI_BITFIELDS,
        size_image: bytes as u32,
        red_mask: 0x00FF_0000,
        green_mask: 0x0000_FF00,
        blue_mask: 0x0000_00FF,
        alpha_mask: 0xFF00_0000,
        color_space: LCS_WINDOWS_COLOR_SPACE,
    }
}

/// The size an icon of a control is made at.
#[derive(Debug, Clone, Copy, PartialEq, Eq, Structural)]
pub enum IconSize {
    /// The small icon size of the system, for the window's DPI.
    Small,
    /// The image's own size.
    Logical,
}

/// The size an icon is made at: the small icon size of the system, given as
/// `small`, or the image's own size (`None`).
pub fn icon_target_size(size: IconSize, small: (i32, i32)) -> (t: Option<(i32, i32)>)
    ensures
        t == (match size {
            IconSize::Small => Some(small),
            IconSize::Logical => None,
        }),
{
    match size {
        IconSize::Small => Some(small),
        IconSize::Logical => None,
    }
}

/// The icon of a window: the image it was made from, the size it was made
/// at, the message that sets it on the control, and its handle.
pub struct IconEntry<I> {
    pub image: I,
    pub size: IconSize,
    pub msg: u32,
    pub icon: usize,
}

/// The icons of the windows that show one, by window handle.
pub struct IconRegistry<I> {
    icons: BTreeMap<usize, IconEntry<I>>,
}

impl<I> IconRegistry<I> {
    /// The icon entry of each window that shows one.
    pub closed spec fn spec_icons(&self) -> Map<usize, IconEntry<I>> {
        self.icons@
    }

    /// No window shows an icon.
    pub fn new() -> (r: Self)
        ensures
            r.spec_icons() == Map::<usize, IconEntry<I>>::empty(),
    {
        IconRegistry { icons: BTreeMap::new() }
    }

    /// Records the icon now set on the window `hwnd`; returns the entry it
    /// replaces, whose icon can then be destroyed.
    pub fn set(&mut self, hwnd: usize, entry: IconEntry<I>) -> (old_entry: Option<IconEntry<I>>)
        ensures
            final(self).spec_icons() == old(self).spec_icons().insert(hwnd, entry),
            old_entry is Some <==> old(self).spec_icons().contains_key(hwnd),
            old_entry matches Some(e) ==> e == old(self).spec_icons()[hwnd],
    {
        self.icons.insert(hwnd, entry)
    }

    /// Forgets the icon of the window `hwnd`; returns the message that
    /// clears it from the control, if the window showed one.
    pub fn clear(&mut self, hwnd: usize) -> (msg: Option<u32>)
        ensures
            final(self).spec_icons() == old(self).spec_icons().remove(hwnd),
            msg == (if old(self).spec_icons().contains_key(hwnd) {
                Some(old(self).spec_icons()[hwnd].msg)
            } else {
                None
            }),
    {
        match self.icons.remove(&hwnd) {
            Some(e) => Some(e.msg),
            None => None,
        }
    }

    /// The icon of the window `hwnd`, to be made again for a new DPI; `None`
    /// when the window shows none, and then nothing is done.
    pub fn get(&self, hwnd: usize) -> (e: Option<&IconEntry<I>>)
        ensures
            e matches Some(x) ==> self.spec_icons().contains_key(hwnd) && *x
                == self.spec_icons()[hwnd],
            e is None ==> !self.spec_icons().contains_key(hwnd),
    {
        self.icons.get(&hwnd)
    }
}

} // verus!
