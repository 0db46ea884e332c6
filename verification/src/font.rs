//! Fonts of Win32 controls: the weight, slant, underline and face name a
//! logical font is made with, how they are read back, and the cache of
//! default fonts by DPI.

use vstd::prelude::*;
use std::collections::BTreeMap;

verus! {

broadcast use vstd::std_specs::btree::group_btree_axioms;

/// `FW_NORMAL`.
pub const FW_NORMAL: i32 = 400;
/// `FW_BOLD`.
pub const FW_BOLD: i32 = 700;
/// `FW_SEMIBOLD`: from this weight on, a font reads as bold.
pub const FW_SEMIBOLD: i32 = 600;
/// `LF_FACESIZE`: the units of a face name, its final nul included.
pub const LF_FACESIZE: usize = 32;

/// The weight, slant and underline a logical font is made with.
#[derive(Debug, Clone, Copy, PartialEq, Eq, Structural)]
pub struct FontStyle {
    pub weight: i32,
    pub italic: u8,
    pub underline: u8,
}

/// The style of the logical font of a font that is bold or not, italic or
/// not, and underlined or not.
pub fn font_style(bold: bool, italic: bool, underline: bool) -> (s: FontStyle)
    ensures
        s.weight == (if bold { FW_BOLD } else { FW_NORMAL }),
        s.italic == (if italic { 1u8 } else { 0u8 }),
        s.underline == (if underline { 1u8 } else { 0u8 }),
{
    FontStyle {
        weight: if bold { FW_BOLD } else { FW_NORMAL },
        italic: if italic { 1 } else { 0 },
        underline: if underline { 1 } else { 0 },
    }
}

/// Whether a logical font of weight `weight` is bold.
pub fn is_bold(weight: i32) -> (b: bool)
    ensures
        b == (weight >= FW_SEMIBOLD),
{
    weight >= FW_SEMIBOLD
}

/// Whether a logical font with the slant flag `italic` is italic.
pub fn is_italic(italic: u8) -> (b: bool)
    ensures
        b == (italic != 0),
{
    italic != 0
}

/// The face name of a logical font for a family with the UTF-16 units
/// `family`: its first 31 units, then nul units up to the last slot.
pub open spec fn spec_face_name(family: Seq<u16>) -> Seq<u16> {
    Seq::new(
        LF_FACESIZE as nat,
        |i: int|
            if i < LF_FACESIZE - 1 && i < family.len() {
                family[i]
            } else {
                0u16
            },
    )
}

/// The face name of a logical font for a family with the UTF-16 units
/// `family`.
pub fn face_name(family: &Vec<u16>) -> (f: Vec<u16>)
    ensures
        f@ == spec_face_name(family@),
{
    let mut f: Vec<u16> = Vec::new();
    let mut i: usize = 0;
    while i < LF_FACESIZE
        invariant
            i <= LF_FACESIZE,
            f@.len() == i,
            forall|j: int| 0 <= j < i ==> f@[j] == spec_face_name(family@)[j],
        decreases LF_FACESIZE - i,
    {
        let unit = if i < LF_FACESIZE - 1 && i < family.len() {
            family[i]
        } else {
            0
        };
        f.push(unit);
        i = i + 1;
    }
    assert(f@ =~= spec_face_name(family@));
    f
}

/// The units of a face name before its first nul unit.
pub open spec fn spec_units_before_nul(units: Seq<u16>) -> Seq<u16>
    decreases units.len(),
{
    if units.len() == 0 {
        units
    } else if units[0] == 0 {
        Seq::<u16>::empty()
    } else {
        seq![units[0]] + spec_units_before_nul(units.drop_first())
    }
}

/// The family a face name reads back as: its units before the first nul.
pub fn family_of_face_name(face: &Vec<u16>) -> (family: Vec<u16>)
    ensures
        family@ == spec_units_before_nul(face@),
{
    let mut i: usize = 0;
    while i < face.len() && face[i] != 0
        invariant
            i <= face@.len(),
            forall|j: int| 0 <= j < i ==> face@[j] != 0,
        decreases face.len() - i,
    {
        i = i + 1;
    }
    let mut family: Vec<u16> = Vec::new();
    let mut k: usize = 0;
    while k < i
        invariant
            k <= i <= face@.len(),
            family@ == face@.subrange(0, k as int),
        decreases i - k,
    {
        family.push(face[k]);
        k = k + 1;
        assert(family@ =~= face@.subrange(0, k as int));
    }
    proof {
        lemma_units_before_first_nul(face@, i as int);
    }
    family
}

/// Where the first nul unit stands at `i`, or no nul comes before the end
/// at `i`, the units before the first nul are the first `i`.
proof fn lemma_units_before_first_nul(s: Seq<u16>, i: int)
    requires
        0 <= i <= s.len(),
        forall|j: int| 0 <= j < i ==> s[j] != 0,
        i < s.len() ==> s[i] == 0,
    ensures
        spec_units_before_nul(s) == s.subrange(0, i),
    decreases s.len(),
{
    if s.len() > 0 {
        if i == 0 {
            assert(s.subrange(0, 0) =~= Seq::<u16>::empty());
        } else {
            let t = s.drop_first();
            assert forall|j: int| 0 <= j < i - 1 implies t[j] != 0 by {
                assert(t[j] == s[j + 1]);
            }
            if i < s.len() {
                assert(t[i - 1] == s[i]);
            }
            lemma_units_before_first_nul(t, i - 1);
            assert(seq![s[0]] + t.subrange(0, i - 1) =~= s.subrange(0, i));
        }
    } else {
        assert(s.subrange(0, i) =~= s);
    }
}

/// A family of at most 31 units, none of them nul, reads back from the face
/// name it was given as itself; a longer one reads back as its first 31
/// units.
pub proof fn lemma_face_name_roundtrip(family: Seq<u16>)
    requires
        forall|j: int| 0 <= j < family.len() ==> family[j] != 0,
    ensures
        family.len() < LF_FACESIZE ==> spec_units_before_nul(spec_face_name(family)) == family,
        family.len() >= LF_FACESIZE - 1 ==> spec_units_before_nul(spec_face_name(family))
            == family.subrange(0, LF_FACESIZE - 1),
{
    let f = spec_face_name(family);
    let n = if family.len() < LF_FACESIZE - 1 {
        family.len() as int
    } else {
        LF_FACESIZE - 1
    };
    assert forall|j: int| 0 <= j < n implies f[j] != 0 by {
        assert(f[j] == family[j]);
    }
    assert(f[n] == 0);
    lemma_units_before_first_nul(f, n);
    assert(f.subrange(0, n) =~= family.subrange(0, n));
    if family.len() < LF_FACESIZE - 1 {
        assert(family.subrange(0, n) =~= family);
    }
}

/// A font made bold or not, italic or not, reads back so.
pub proof fn lemma_style_roundtrip(bold: bool, italic: bool)
    ensures
        ((if bold { FW_BOLD } else { FW_NORMAL }) >= FW_SEMIBOLD) == bold,
        ((if italic { 1u8 } else { 0u8 }) != 0) == italic,
{
}

/// The default fonts made so far, by the DPI they were made for.
pub struct FontCache {
    fonts: BTreeMap<u32, usize>,
}

impl FontCache {
    /// The handle of the font made for each DPI.
    pub closed spec fn spec_fonts(&self) -> Map<u32, usize> {
        self.fonts@
    }

    /// No font made yet.
    pub fn new() -> (c: Self)
        ensures
            c.spec_fonts() == Map::<u32, usize>::empty(),
    {
        FontCache { fonts: BTreeMap::new() }
    }

    /// The font made for `dpi`, if one was; otherwise one must be made and
    /// remembered.
    pub fn cached(&self, dpi: u32) -> (f: Option<usize>)
        ensures
            f == (if self.spec_fonts().contains_key(dpi) {
                Some(self.spec_fonts()[dpi])
            } else {
                None
            }),
    {
        match self.fonts.get(&dpi) {
            Some(f) => Some(*f),
            None => None,
        }
    }

    /// Remembers the font `font` made for `dpi`.
    pub fn remember(&mut self, dpi: u32, font: usize)
        ensures
            final(self).spec_fonts() == old(self).spec_fonts().insert(dpi, font),
    {
        self.fonts.insert(dpi, font);
    }

    /// Forgets the font made for `dpi`.
    pub fn forget(&mut self, dpi: u32)
        ensures
            final(self).spec_fonts() == old(self).spec_fonts().remove(dpi),
    {
        self.fonts.remove(&dpi);
    }
}

} // verus!
