//! The pages of a tab view: which page views it holds and in what order,
//! the index each page knows itself by, which page is shown, and when an
//! insertion is refused.

use vstd::prelude::*;
use crate::window::EdgeRect;

verus! {

/// `ERROR_ALREADY_EXISTS`.
pub const ERROR_ALREADY_EXISTS: u32 = 183;
/// `ERROR_HWNDS_HAVE_DIFF_PARENT`.
pub const ERROR_HWNDS_HAVE_DIFF_PARENT: u32 = 1441;

/// Why a page cannot be inserted into a tab view.
#[derive(Debug, Clone, Copy, PartialEq, Eq, Structural)]
pub enum TabInsertError {
    /// The page already belongs to a tab view.
    HwndsHaveDiffParent,
    /// The page view is already a child of this tab view.
    AlreadyExists,
}

impl TabInsertError {
    /// The Win32 error code of the refusal.
    pub fn code(&self) -> (c: u32)
        ensures
            c == match *self {
                TabInsertError::HwndsHaveDiffParent => ERROR_HWNDS_HAVE_DIFF_PARENT,
                TabInsertError::AlreadyExists => ERROR_ALREADY_EXISTS,
            },
    {
        match self {
            TabInsertError::HwndsHaveDiffParent => ERROR_HWNDS_HAVE_DIFF_PARENT,
            TabInsertError::AlreadyExists => ERROR_ALREADY_EXISTS,
        }
    }
}

/// Whether a page may be inserted: not when it already knows an index in a
/// tab view, nor when its view is already a child of this tab view.
pub fn check_insert(page_index: Option<usize>, previous_parent: usize, tab: usize) -> (r: Result<
    (),
    TabInsertError,
>)
    ensures
        r == (if page_index is Some {
            Err(TabInsertError::HwndsHaveDiffParent)
        } else if previous_parent == tab {
            Err(TabInsertError::AlreadyExists)
        } else {
            Ok(())
        }),
{
    if page_index.is_some() {
        Err(TabInsertError::HwndsHaveDiffParent)
    } else if previous_parent == tab {
        Err(TabInsertError::AlreadyExists)
    } else {
        Ok(())
    }
}

/// The first position of `view` in `views`, if it is there.
pub open spec fn spec_position(views: Seq<usize>, view: usize) -> Option<usize> {
    if views.contains(view) {
        Some(
            (choose|i: int| 0 <= i < views.len() && views[i] == view && forall|j: int|
                0 <= j < i ==> views[j] != view) as usize,
        )
    } else {
        None
    }
}

/// What to do with the page views when the shown page changes.
#[derive(Debug, Clone, Copy, PartialEq, Eq, Structural)]
pub struct ViewSwitch {
    /// The view to hide, the one shown until now.
    pub hide: Option<usize>,
    /// The view to show, the one of the selected tab.
    pub show: Option<usize>,
}

/// The pages of a tab view, by the handles of their views, in tab order, and
/// the index of the page shown.
pub struct TabPages {
    views: Vec<usize>,
    current: Option<usize>,
}

/// The view at `i` in `views`, if there is one.
pub open spec fn view_at(views: Seq<usize>, i: Option<usize>) -> Option<usize> {
    match i {
        Some(i) => if i < views.len() {
            Some(views[i as int])
        } else {
            None
        },
        None => None,
    }
}

impl TabPages {
    /// The handles of the page views, in tab order.
    pub closed spec fn spec_views(&self) -> Seq<usize> {
        self.views@
    }

    /// The index of the page shown, if any.
    pub closed spec fn spec_current(&self) -> Option<usize> {
        self.current
    }

    /// No view stands twice among the pages: a page is inserted only when its
    /// view is not a page yet.
    pub closed spec fn wf(&self) -> bool {
        self.views@.no_duplicates()
    }

    /// A tab view with no page.
    pub fn new() -> (t: Self)
        ensures
            t.wf(),
            t.spec_views() == Seq::<usize>::empty(),
            t.spec_current() is None,
    {
        TabPages { views: Vec::new(), current: None }
    }

    /// The number of pages.
    pub fn len(&self) -> (n: usize)
        ensures
            n == self.spec_views().len(),
    {
        self.views.len()
    }

    /// Whether there is no page.
    pub fn is_empty(&self) -> (b: bool)
        ensures
            b == (self.spec_views().len() == 0),
    {
        self.views.len() == 0
    }

    /// The handles of the page views, in tab order.
    pub fn views(&self) -> (v: &Vec<usize>)
        ensures
            v@ == self.spec_views(),
    {
        &self.views
    }

    /// The index the page with the view `view` knows itself by: its position
    /// among the pages.
    pub fn page_index(&self, view: usize) -> (r: Option<usize>)
        ensures
            r == spec_position(self.spec_views(), view),
    {
        let mut i: usize = 0;
        while i < self.views.len()
            invariant
                i <= self.views@.len(),
                forall|j: int| 0 <= j < i ==> self.views@[j] != view,
            decreases self.views.len() - i,
        {
            if self.views[i] == view {
                proof {
                    let k = choose|k: int|
                        0 <= k < self.views@.len() && self.views@[k] == view && forall|j: int|
                            0 <= j < k ==> self.views@[j] != view;
                    assert(self.views@.contains(view));
                    assert(0 <= i < self.views@.len() && self.views@[i as int] == view && forall|
                        j: int,
                    |
                        0 <= j < i ==> self.views@[j] != view);
                    if k < i {
                        assert(self.views@[k] != view);
                    }
                    if i < k {
                        assert(self.views@[i as int] != view);
                    }
                }
                return Some(i);
            }
            i = i + 1;
        }
        None
    }

    /// Inserts the page with the view `view` at `i`, after the check of
    /// [`check_insert`] passed, which refuses a view that is a page already.
    /// The pages after `i` move one place on. Returns whether the page is the
    /// only one, in which case the shown view must be brought up to date.
    pub fn insert(&mut self, i: usize, view: usize) -> (first: bool)
        requires
            i <= old(self).spec_views().len(),
            !old(self).spec_views().contains(view),
        ensures
            old(self).wf() ==> final(self).wf(),
            final(self).spec_views() == old(self).spec_views().insert(i as int, view),
            final(self).spec_current() == old(self).spec_current(),
            first == (final(self).spec_views().len() == 1),
    {
        self.views.insert(i, view);
        proof {
            let ov = old(self).views@;
            let nv = self.views@;
            if ov.no_duplicates() {
                assert forall|a: int, b: int| 0 <= a < nv.len() && 0 <= b < nv.len() && a != b
                    implies nv[a] != nv[b] by {
                    if a == i || b == i {
                        let o = if a == i { b } else { a };
                        if o < i {
                            assert(nv[o] == ov[o]);
                        } else {
                            assert(nv[o] == ov[o - 1]);
                        }
                    } else {
                        let oa = if a < i { a } else { a - 1 };
                        let ob = if b < i { b } else { b - 1 };
                        assert(nv[a] == ov[oa]);
                        assert(nv[b] == ov[ob]);
                    }
                }
            }
        }
        self.views.len() == 1
    }

    /// Brings the shown page up to the selected tab `selection`: the view shown
    /// until now is hidden and the view of the selection is shown.
    pub fn show_current_view(&mut self, selection: Option<usize>) -> (s: ViewSwitch)
        ensures
            final(self).wf() == old(self).wf(),
            final(self).spec_views() == old(self).spec_views(),
            final(self).spec_current() == selection,
            s.hide == view_at(old(self).spec_views(), old(self).spec_current()),
            s.show == view_at(old(self).spec_views(), selection),
    {
        let hide = match self.current {
            Some(c) => if c < self.views.len() {
                Some(self.views[c])
            } else {
                None
            },
            None => None,
        };
        self.current = selection;
        let show = match selection {
            Some(c) => if c < self.views.len() {
                Some(self.views[c])
            } else {
                None
            },
            None => None,
        };
        ViewSwitch { hide, show }
    }

    /// Removes the page at `i` while the tab `selection` is selected. Returns
    /// the view of the removed page, which leaves the tab view, and whether
    /// the first tab must be selected because the removed one was.
    pub fn remove(&mut self, i: usize, selection: Option<usize>) -> (r: (usize, bool))
        requires
            i < old(self).spec_views().len(),
        ensures
            r.0 == old(self).spec_views()[i as int],
            r.1 == (selection == Some(i)),
            old(self).wf() ==> final(self).wf(),
            old(self).wf() ==> !final(self).spec_views().contains(r.0),
            final(self).spec_views() == old(self).spec_views().remove(i as int),
            final(self).spec_current() == old(self).spec_current(),
    {
        let need_reselect = match selection {
            Some(s) => s == i,
            None => false,
        };
        let view = self.views.remove(i);
        proof {
            let ov = old(self).views@;
            let nv = self.views@;
            if ov.no_duplicates() {
                assert forall|a: int, b: int| 0 <= a < nv.len() && 0 <= b < nv.len() && a != b
                    implies nv[a] != nv[b] by {
                    let oa = if a < i { a } else { a + 1 };
                    let ob = if b < i { b } else { b + 1 };
                    assert(nv[a] == ov[oa]);
                    assert(nv[b] == ov[ob]);
                }
                assert forall|j: int| 0 <= j < nv.len() implies nv[j] != view by {
                    if j < i {
                        assert(nv[j] == ov[j]);
                    } else {
                        assert(nv[j] == ov[j + 1]);
                    }
                }
            }
        }
        (view, need_reselect)
    }

    /// Removes every page. Returns their views, in tab order, which leave the
    /// tab view.
    pub fn clear(&mut self) -> (removed: Vec<usize>)
        ensures
            removed@ == old(self).spec_views(),
            final(self).wf(),
            final(self).spec_views() == Seq::<usize>::empty(),
            final(self).spec_current() == old(self).spec_current(),
    {
        let mut removed: Vec<usize> = Vec::new();
        std::mem::swap(&mut removed, &mut self.views);
        removed
    }
}

/// The tab whose title must change when a page is retitled: the page's
/// index, when it knows one and its view has a parent to tell.
pub fn retitle_target(page_index: Option<usize>, has_parent: bool) -> (r: Option<usize>)
    ensures
        r == (if has_parent { page_index } else { None }),
{
    if has_parent {
        page_index
    } else {
        None
    }
}

/// A page of a tab view: its title and, while it is among the pages, its
/// index there.
pub struct TabViewItem {
    title: String,
    index: Option<usize>,
}

impl TabViewItem {
    /// The title of the page.
    pub closed spec fn spec_title(&self) -> Seq<char> {
        self.title@
    }

    /// The index of the page among the pages of its tab view, if it is one.
    pub closed spec fn spec_index(&self) -> Option<usize> {
        self.index
    }

    /// A page with an empty title, in no tab view.
    pub fn new() -> (t: Self)
        ensures
            t.spec_title() == Seq::<char>::empty(),
            t.spec_index() is None,
    {
        TabViewItem { title: String::new(), index: None }
    }

    /// The title of the page.
    pub fn text(&self) -> (s: String)
        ensures
            s@ == self.spec_title(),
    {
        self.title.clone()
    }

    /// Sets the title of the page. Returns the tab whose label the tab view
    /// must change to the new title: the page's index, when it has one and
    /// its view has a parent (`has_parent`) to tell; no other tab changes.
    pub fn set_text(&mut self, s: &str, has_parent: bool) -> (retitle: Option<usize>)
        ensures
            final(self).spec_title() == s@,
            final(self).spec_index() == old(self).spec_index(),
            retitle == (if has_parent {
                old(self).spec_index()
            } else {
                None
            }),
    {
        self.title = String::from_str(s);
        retitle_target(self.index, has_parent)
    }

    /// The index of the page among the pages of its tab view, if it is one.
    pub fn index(&self) -> (i: Option<usize>)
        ensures
            i == self.spec_index(),
    {
        self.index
    }

    /// Records the page's index as the tab view assigns it: its place on
    /// insertion, none once removed.
    pub fn set_index(&mut self, i: Option<usize>)
        ensures
            final(self).spec_index() == i,
            final(self).spec_title() == old(self).spec_title(),
    {
        self.index = i;
    }
}

/// Where every page view is moved on a resize: the client area of the tab
/// control once adjusted for its tabs, as `(x, y, width, height)`.
pub fn page_bounds(display: EdgeRect) -> (b: (i32, i32, i32, i32))
    requires
        i32::MIN <= display.right - display.left <= i32::MAX,
        i32::MIN <= display.bottom - display.top <= i32::MAX,
    ensures
        b == (
            display.left,
            display.top,
            (display.right - display.left) as i32,
            (display.bottom - display.top) as i32,
        ),
{
    (display.left, display.top, display.right - display.left, display.bottom - display.top)
}

/// The tab view only accepts a page that knows no index and whose view is not
/// its child yet; an inserted page then knows itself by the place it was
/// inserted at, as long as its view was not among the pages before.
pub proof fn lemma_inserted_page_knows_its_index(views: Seq<usize>, i: int, view: usize)
    requires
        0 <= i <= views.len(),
        !views.contains(view),
    ensures
        spec_position(views.insert(i, view), view) == Some(i as usize),
{
    let nv = views.insert(i, view);
    assert(nv[i] == view);
    assert(nv.contains(view));
    assert forall|j: int| 0 <= j < i implies nv[j] != view by {
        assert(nv[j] == views[j]);
    }
    let k = choose|k: int|
        0 <= k < nv.len() && nv[k] == view && forall|j: int| 0 <= j < k ==> nv[j] != view;
    assert(0 <= k < nv.len() && nv[k] == view && forall|j: int| 0 <= j < k ==> nv[j] != view);
    if k < i {
        assert(nv[k] == views[k]);
    }
    if k > i {
        assert(nv[i] != view);
    }
}

/// Each page knows itself by its place among the pages: its index is its
/// position, after any insertion or removal.
pub proof fn lemma_each_page_knows_its_index(pages: TabPages)
    requires
        pages.wf(),
    ensures
        forall|k: int|
            0 <= k < pages.spec_views().len() ==> spec_position(
                pages.spec_views(),
                #[trigger] pages.spec_views()[k],
            ) == Some(k as usize),
{
    let v = pages.spec_views();
    assert forall|k: int| 0 <= k < v.len() implies spec_position(v, #[trigger] v[k]) == Some(
        k as usize,
    ) by {
        assert(v.contains(v[k]));
        let j = choose|j: int| 0 <= j < v.len() && v[j] == v[k] && forall|m: int| 0 <= m < j ==> v[m] != v[k];
        assert(0 <= k < v.len() && v[k] == v[k] && forall|m: int| 0 <= m < k ==> v[m] != v[k]);
        assert(0 <= j < v.len() && v[j] == v[k]);
        assert(j == k);
    }
}

/// A removed page is no longer among the pages: it knows no index there.
pub proof fn lemma_removed_page_is_gone(pages: TabPages, i: int)
    requires
        pages.wf(),
        0 <= i < pages.spec_views().len(),
    ensures
        spec_position(pages.spec_views().remove(i), pages.spec_views()[i]) is None,
{
    let views = pages.spec_views();
    let nv = views.remove(i);
    assert forall|j: int| 0 <= j < nv.len() implies nv[j] != views[i] by {
        if j < i {
            assert(nv[j] == views[j]);
        } else {
            assert(nv[j] == views[j + 1]);
        }
    }
}

/// Which page views are hidden once the tab `selected` is selected: every
/// view but the selected one.
pub fn hidden_views(count: usize, selected: usize) -> (h: Vec<bool>)
    ensures
        h@.len() == count,
        forall|i: int| 0 <= i < count ==> h@[i] == (i != selected),
{
    let mut h: Vec<bool> = Vec::new();
    let mut i: usize = 0;
    while i < count
        invariant
            i <= count,
            h@.len() == i,
            forall|j: int| 0 <= j < i ==> h@[j] == (j != selected),
        decreases count - i,
    {
        h.push(i != selected);
        i = i + 1;
    }
    h
}

/// Which page views are hidden once the segment `index` is reported
/// selected: every view but the selected one, or nothing changes when no
/// segment is selected (`index` is negative).
pub fn visible_after_select(count: usize, index: isize) -> (h: Option<Vec<bool>>)
    ensures
        index < 0 ==> h is None,
        index >= 0 ==> (h matches Some(v) && v@.len() == count && forall|i: int|
            0 <= i < count ==> v@[i] == (i != index)),
{
    if index < 0 {
        None
    } else {
        Some(hidden_views(count, index as usize))
    }
}

} // verus!
