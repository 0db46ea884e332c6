//! Combo boxes and list boxes: the selection a Win32 combo box keeps when
//! an item is removed, and the item lists that the UIKit list box and combo
//! box show in their rows.

use vstd::prelude::*;

verus! {

/// What becomes of the selection of a Win32 combo box after an item is
/// removed.
#[derive(Debug, Clone, Copy, PartialEq, Eq, Structural)]
pub enum Reselect {
    /// The selection is left as the control left it.
    Keep,
    /// The item at this index is selected.
    Select(usize),
    /// The selection is cleared.
    Clear,
}

/// What becomes of the selection once the item at `i` was removed and
/// `len` items are left: when the selected item went from a fixed combo box,
/// the item that took its place is selected, or the last one when it was the
/// last, or nothing when none is left. An editable combo box, and the removal
/// of an item that was not selected, leave the selection alone.
pub fn removal_reselect(removed_selected: bool, editable: bool, i: usize, len: usize) -> (r:
    Reselect)
    ensures
        !removed_selected || editable ==> r == Reselect::Keep,
        removed_selected && !editable && len == 0 ==> r == Reselect::Clear,
        removed_selected && !editable && len > 0 ==> r == Reselect::Select(
            if i < len - 1 {
                i
            } else {
                (len - 1) as usize
            },
        ),
{
    if removed_selected && !editable {
        if len > 0 {
            let last = len - 1;
            Reselect::Select(if i < last { i } else { last })
        } else {
            Reselect::Clear
        }
    } else {
        Reselect::Keep
    }
}

/// What becomes of the selection of a Win32 combo box whose item at `i` is
/// replaced, out of `len` items, while `selection` is selected: the item is
/// removed as from an editable combo box, which leaves the selection alone
/// (the first result), and once the new text is inserted in its place, the
/// item selected before is selected again (the second result).
pub fn replacement_reselect(selection: Option<usize>, i: usize, len: usize) -> (r: (
    Reselect,
    Reselect,
))
    requires
        i < len,
    ensures
        r.0 == Reselect::Keep,
        r.1 == (match selection {
            Some(k) => Reselect::Select(k),
            None => Reselect::Keep,
        }),
{
    let removed_selected = match selection {
        Some(k) => k == i,
        None => false,
    };
    let after_remove = removal_reselect(removed_selected, true, i, len - 1);
    let after_insert = match selection {
        Some(k) => Reselect::Select(k),
        None => Reselect::Keep,
    };
    (after_remove, after_insert)
}

/// Whether an insertion selects the first item: in a fixed combo box, when
/// the inserted item is the only one.
pub fn selects_first_after_insert(editable: bool, len: usize) -> (b: bool)
    ensures
        b == (!editable && len == 1),
{
    !editable && len == 1
}

/// The items of a UIKit list box or combo box, which its table or picker
/// shows one per row.
pub struct ItemList {
    items: Vec<String>,
}

/// The index of the selected item, from the row the picker reports: `None`
/// when the row is negative or names no item.
pub open spec fn spec_selection(len: nat, row: isize) -> Option<usize> {
    if row < 0 || len == 0 || row >= len {
        None
    } else {
        Some(row as usize)
    }
}

impl ItemList {
    /// The text of each item, in order.
    pub closed spec fn spec_items(&self) -> Seq<Seq<char>> {
        self.items@.map_values(|s: String| s@)
    }

    /// A list with no item.
    pub fn new() -> (c: Self)
        ensures
            c.spec_items() == Seq::<Seq<char>>::empty(),
    {
        let c = ItemList { items: Vec::new() };
        assert(c.spec_items() =~= Seq::<Seq<char>>::empty());
        c
    }

    /// The number of items.
    pub fn len(&self) -> (n: usize)
        ensures
            n == self.spec_items().len(),
    {
        self.items.len()
    }

    /// Whether there is no item.
    pub fn is_empty(&self) -> (b: bool)
        ensures
            b == (self.spec_items().len() == 0),
    {
        self.items.len() == 0
    }

    /// The text of the item at `i`.
    pub fn get(&self, i: usize) -> (s: String)
        requires
            i < self.spec_items().len(),
        ensures
            s@ == self.spec_items()[i as int],
    {
        self.items[i].clone()
    }

    /// Replaces the text of the item at `i`.
    pub fn set(&mut self, i: usize, s: &str)
        requires
            i < old(self).spec_items().len(),
        ensures
            final(self).spec_items() == old(self).spec_items().update(i as int, s@),
    {
        self.items.set(i, String::from_str(s));
        assert(self.spec_items() =~= old(self).spec_items().update(i as int, s@));
    }

    /// Inserts an item with the text `s` at `i`; the items after it move one
    /// place on.
    pub fn insert(&mut self, i: usize, s: &str)
        requires
            i <= old(self).spec_items().len(),
        ensures
            final(self).spec_items() == old(self).spec_items().insert(i as int, s@),
    {
        self.items.insert(i, String::from_str(s));
        assert(self.spec_items() =~= old(self).spec_items().insert(i as int, s@));
    }

    /// Removes the item at `i`; the items after it move one place back.
    pub fn remove(&mut self, i: usize)
        requires
            i < old(self).spec_items().len(),
        ensures
            final(self).spec_items() == old(self).spec_items().remove(i as int),
    {
        self.items.remove(i);
        assert(self.spec_items() =~= old(self).spec_items().remove(i as int));
    }

    /// Removes every item.
    pub fn clear(&mut self)
        ensures
            final(self).spec_items() == Seq::<Seq<char>>::empty(),
    {
        self.items.clear();
        assert(self.spec_items() =~= Seq::<Seq<char>>::empty());
    }

    /// The text of the row `row`: that of its item, if there is one.
    pub fn row_text(&self, row: isize) -> (t: Option<String>)
        ensures
            row < 0 || row >= self.spec_items().len() ==> t is None,
            0 <= row < self.spec_items().len() ==> (t matches Some(s) && s@ == self.spec_items()[
                row as int
            ]),
    {
        if row < 0 || (row as usize) >= self.items.len() {
            None
        } else {
            Some(self.items[row as usize].clone())
        }
    }

    /// The number of rows: one per item.
    pub fn number_of_rows(&self) -> (n: isize)
        ensures
            n == self.spec_items().len() as isize,
    {
        self.items.len() as isize
    }
}

/// Whether one of the rows `rows` is the row of the item at `i`.
pub open spec fn spec_row_listed(rows: Seq<isize>, i: usize) -> bool {
    exists|k: int| 0 <= k < rows.len() && rows[k] as usize == i
}

/// Whether the item at `i` is selected, given the rows the table reports
/// selected (none when it reports no selection).
pub fn row_selected(selected: Option<&Vec<isize>>, i: usize) -> (b: bool)
    ensures
        b == match selected {
            Some(rows) => spec_row_listed(rows@, i),
            None => false,
        },
{
    match selected {
        Some(rows) => row_listed(rows, i),
        None => false,
    }
}

/// Whether one of the rows `rows` is the row of the item at `i`.
fn row_listed(rows: &Vec<isize>, i: usize) -> (b: bool)
    ensures
        b == spec_row_listed(rows@, i),
{
    let mut k: usize = 0;
    while k < rows.len()
        invariant
            k <= rows@.len(),
            forall|j: int| 0 <= j < k ==> rows@[j] as usize != i,
        decreases rows.len() - k,
    {
        if rows[k] as usize == i {
            assert(0 <= k < rows@.len() && rows@[k as int] as usize == i);
            return true;
        }
        k = k + 1;
    }
    false
}

/// The items of a UIKit combo box and whether its text may be typed in.
pub struct ComboItems {
    list: ItemList,
    editable: bool,
}

impl ComboItems {
    /// The text of each item, in order.
    pub closed spec fn spec_items(&self) -> Seq<Seq<char>> {
        self.list.spec_items()
    }

    /// Whether the text may be typed in.
    pub closed spec fn spec_editable(&self) -> bool {
        self.editable
    }

    /// A combo box with no item, whose text cannot be typed in.
    pub fn new() -> (c: Self)
        ensures
            c.spec_items() == Seq::<Seq<char>>::empty(),
            !c.spec_editable(),
    {
        ComboItems { list: ItemList::new(), editable: false }
    }

    /// The number of items.
    pub fn len(&self) -> (n: usize)
        ensures
            n == self.spec_items().len(),
    {
        self.list.len()
    }

    /// Whether there is no item.
    pub fn is_empty(&self) -> (b: bool)
        ensures
            b == (self.spec_items().len() == 0),
    {
        self.list.is_empty()
    }

    /// Whether the text may be typed in; the text field accepts a typed
    /// change only then.
    pub fn is_editable(&self) -> (b: bool)
        ensures
            b == self.spec_editable(),
    {
        self.editable
    }

    /// Lets the text be typed in, or not.
    pub fn set_editable(&mut self, v: bool)
        ensures
            final(self).spec_editable() == v,
            final(self).spec_items() == old(self).spec_items(),
    {
        self.editable = v;
    }

    /// The text of the item at `i`.
    pub fn get(&self, i: usize) -> (s: String)
        requires
            i < self.spec_items().len(),
        ensures
            s@ == self.spec_items()[i as int],
    {
        self.list.get(i)
    }

    /// Replaces the text of the item at `i`.
    pub fn set(&mut self, i: usize, s: &str)
        requires
            i < old(self).spec_items().len(),
        ensures
            final(self).spec_items() == old(self).spec_items().update(i as int, s@),
            final(self).spec_editable() == old(self).spec_editable(),
    {
        self.list.set(i, s);
    }

    /// Inserts an item with the text `s` at `i`; the items after it move one
    /// place on. Returns whether the first item must now be selected: in a
    /// combo box that cannot be typed in, when it is the only item.
    pub fn insert(&mut self, i: usize, s: &str) -> (select_first: bool)
        requires
            i <= old(self).spec_items().len(),
        ensures
            final(self).spec_items() == old(self).spec_items().insert(i as int, s@),
            final(self).spec_editable() == old(self).spec_editable(),
            select_first == (!old(self).spec_editable() && final(self).spec_items().len() == 1),
    {
        self.list.insert(i, s);
        selects_first_after_insert(self.editable, self.list.len())
    }

    /// Removes the item at `i`; the items after it move one place back.
    pub fn remove(&mut self, i: usize)
        requires
            i < old(self).spec_items().len(),
        ensures
            final(self).spec_items() == old(self).spec_items().remove(i as int),
            final(self).spec_editable() == old(self).spec_editable(),
    {
        self.list.remove(i);
    }

    /// Removes every item.
    pub fn clear(&mut self)
        ensures
            final(self).spec_items() == Seq::<Seq<char>>::empty(),
            final(self).spec_editable() == old(self).spec_editable(),
    {
        self.list.clear();
    }

    /// The index of the selected item, from the row the picker reports.
    pub fn selection(&self, row: isize) -> (r: Option<usize>)
        ensures
            r == spec_selection(self.spec_items().len(), row),
            r matches Some(i) ==> i < self.spec_items().len(),
    {
        let len = self.list.len();
        if row < 0 || len == 0 || (row as usize) >= len {
            None
        } else {
            Some(row as usize)
        }
    }

    /// The text of the combo box: that of the selected item, or the empty
    /// text when none is selected.
    pub fn text(&self, row: isize) -> (s: String)
        ensures
            s@ == match spec_selection(self.spec_items().len(), row) {
                Some(i) => self.spec_items()[i as int],
                None => Seq::<char>::empty(),
            },
    {
        match self.selection(row) {
            Some(i) => self.list.get(i),
            None => String::new(),
        }
    }

    /// The title of the picker row `row`: the text of its item, if there is
    /// one.
    pub fn title_for_row(&self, row: isize) -> (t: Option<String>)
        ensures
            row < 0 || row >= self.spec_items().len() ==> t is None,
            0 <= row < self.spec_items().len() ==> (t matches Some(s) && s@ == self.spec_items()[
                row as int
            ]),
    {
        self.list.row_text(row)
    }

    /// The number of rows of the picker: one per item.
    pub fn number_of_rows(&self) -> (n: isize)
        ensures
            n == self.spec_items().len() as isize,
    {
        self.list.number_of_rows()
    }
}

/// Removing an item right after it was inserted at the same place gives back
/// the items as they were.
pub proof fn lemma_insert_then_remove(items: Seq<Seq<char>>, i: int, s: Seq<char>)
    requires
        0 <= i <= items.len(),
    ensures
        items.insert(i, s).remove(i) == items,
        items.insert(i, s)[i] == s,
{
    assert(items.insert(i, s).remove(i) =~= items);
}

/// Replacing an item changes that item only.
pub proof fn lemma_set_changes_one_item(items: Seq<Seq<char>>, i: int, s: Seq<char>, j: int)
    requires
        0 <= i < items.len(),
        0 <= j < items.len(),
    ensures
        items.update(i, s).len() == items.len(),
        items.update(i, s)[j] == (if j == i {
            s
        } else {
            items[j]
        }),
{
}

/// The row a picker reports selects the item of that row when there is
/// one, and nothing when the row is negative or past the last item.
pub proof fn lemma_selection_of_row(len: nat, row: isize)
    ensures
        0 <= row < len ==> spec_selection(len, row) == Some(row as usize),
        (row < 0 || row >= len) ==> spec_selection(len, row) is None,
        spec_selection(len, row) matches Some(i) ==> i < len && i == row,
{
}

} // verus!
