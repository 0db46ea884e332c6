//! File dialog descriptions: filters and the content types a document picker
//! is asked to show.

use vstd::prelude::*;
use vstd::string::*;

verus! {

/// A named file filter such as `("Text files", "*.txt")`.
#[derive(Debug, Clone, PartialEq, Eq)]
pub struct FileFilter {
    name: String,
    pattern: String,
}

/// What a [`FileFilter`] holds.
pub struct FileFilterView {
    pub name: Seq<char>,
    pub pattern: Seq<char>,
}

impl View for FileFilter {
    type V = FileFilterView;

    closed spec fn view(&self) -> FileFilterView {
        FileFilterView { name: self.name@, pattern: self.pattern@ }
    }
}

impl FileFilter {
    /// Creates a filter from its display name and its glob pattern.
    pub fn new(name: &str, pattern: &str) -> (f: Self)
        ensures
            f@.name == name@,
            f@.pattern == pattern@,
    {
        FileFilter { name: String::from_str(name), pattern: String::from_str(pattern) }
    }

    /// The glob pattern of the filter.
    pub fn pattern(&self) -> (p: &str)
        ensures
            p@ == self@.pattern,
    {
        self.pattern.as_str()
    }

    /// The display name of the filter.
    pub fn name(&self) -> (n: &str)
        ensures
            n@ == self@.name,
    {
        self.name.as_str()
    }
}


/// The description of a file dialog: its title, the proposed file name and
/// the filters it offers.
#[derive(Debug, Clone)]
pub struct FileBox {
    title: String,
    filename: String,
    filters: Vec<FileFilter>,
}

/// What a [`FileBox`] holds.
pub struct FileBoxView {
    pub title: Seq<char>,
    pub filename: Seq<char>,
    pub filters: Seq<FileFilterView>,
}

impl View for FileBox {
    type V = FileBoxView;

    closed spec fn view(&self) -> FileBoxView {
        FileBoxView {
            title: self.title@,
            filename: self.filename@,
            filters: self.filters@.map_values(|f: FileFilter| f@),
        }
    }
}

impl FileBox {
    /// An empty description: no title, no file name, no filter.
    pub fn new() -> (b: Self)
        ensures
            b@.title == Seq::<char>::empty(),
            b@.filename == Seq::<char>::empty(),
            b@.filters == Seq::<FileFilterView>::empty(),
    {
        let b = FileBox { title: String::new(), filename: String::new(), filters: Vec::new() };
        assert(b@.filters =~= Seq::<FileFilterView>::empty());
        b
    }

    /// Sets the title of the dialog.
    pub fn title(&mut self, title: &str)
        ensures
            final(self)@.title == title@,
            final(self)@.filename == old(self)@.filename,
            final(self)@.filters == old(self)@.filters,
    {
        self.title = String::from_str(title);
    }

    /// Sets the proposed file name.
    pub fn filename(&mut self, filename: &str)
        ensures
            final(self)@.filename == filename@,
            final(self)@.title == old(self)@.title,
            final(self)@.filters == old(self)@.filters,
    {
        self.filename = String::from_str(filename);
    }

    /// Replaces all filters by `filters`, in their order.
    pub fn filters(&mut self, filters: Vec<FileFilter>)
        ensures
            final(self)@.filters == filters@.map_values(|f: FileFilter| f@),
            final(self)@.title == old(self)@.title,
            final(self)@.filename == old(self)@.filename,
    {
        self.filters = filters;
    }

    /// Appends one filter after the others.
    pub fn add_filter(&mut self, filter: FileFilter)
        ensures
            final(self)@.filters == old(self)@.filters.push(filter@),
            final(self)@.title == old(self)@.title,
            final(self)@.filename == old(self)@.filename,
    {
        self.filters.push(filter);
        assert(self@.filters =~= old(self)@.filters.push(filter@));
    }

    /// The title of the dialog.
    pub fn get_title(&self) -> (t: &str)
        ensures
            t@ == self@.title,
    {
        self.title.as_str()
    }

    /// The proposed file name.
    pub fn get_filename(&self) -> (t: &str)
        ensures
            t@ == self@.filename,
    {
        self.filename.as_str()
    }

    /// The filters, in the order they were given.
    pub fn get_filters(&self) -> (f: &Vec<FileFilter>)
        ensures
            f@.map_values(|x: FileFilter| x@) == self@.filters,
    {
        &self.filters
    }
}

/// The content type a picker is asked for, before the system resolves it.
#[derive(Debug, Clone, PartialEq, Eq)]
pub enum ContentTypeRequest {
    /// Any data file.
    Data,
    /// A folder.
    Directory,
    /// Files with the given extension (without the leading dot).
    Extension(String),
}

/// What a [`ContentTypeRequest`] asks for.
pub enum ContentTypeRequestView {
    Data,
    Directory,
    Extension(Seq<char>),
}

impl View for ContentTypeRequest {
    type V = ContentTypeRequestView;

    open spec fn view(&self) -> ContentTypeRequestView {
        match self {
            ContentTypeRequest::Data => ContentTypeRequestView::Data,
            ContentTypeRequest::Directory => ContentTypeRequestView::Directory,
            ContentTypeRequest::Extension(e) => ContentTypeRequestView::Extension(e@),
        }
    }
}

/// `"*.*"` and `"*"` match every file.
pub open spec fn matches_everything(pattern: Seq<char>) -> bool {
    pattern == seq!['*', '.', '*'] || pattern == seq!['*']
}

/// A pattern with its leading `"*."` removed, if it has one.
pub open spec fn strip_star_dot(pattern: Seq<char>) -> Seq<char> {
    if pattern.len() >= 2 && pattern[0] == '*' && pattern[1] == '.' {
        pattern.subrange(2, pattern.len() as int)
    } else {
        pattern
    }
}

/// The content type requested for one filter pattern.
pub open spec fn spec_filter_request(pattern: Seq<char>) -> ContentTypeRequestView {
    if matches_everything(pattern) {
        ContentTypeRequestView::Data
    } else {
        ContentTypeRequestView::Extension(strip_star_dot(pattern))
    }
}

/// The content types a picker is asked for: a folder when choosing a folder,
/// otherwise one request per filter, in the filters' order.
pub open spec fn spec_content_type_requests(filters: Seq<FileFilterView>, folder: bool) -> Seq<
    ContentTypeRequestView,
> {
    if folder {
        seq![ContentTypeRequestView::Directory]
    } else {
        filters.map_values(|f: FileFilterView| spec_filter_request(f.pattern))
    }
}

/// Whether `s` is exactly `"*.*"` or `"*"`.
fn is_match_all(s: &str) -> (b: bool)
    ensures
        b == matches_everything(s@),
{
    let n = s.unicode_len();
    if n == 1 {
        let c = s.get_char(0);
        proof {
            if c == '*' {
                assert(s@ =~= seq!['*']);
            }
            assert(s@.len() != seq!['*', '.', '*'].len());
        }
        c == '*'
    } else if n == 3 {
        let a = s.get_char(0);
        let b = s.get_char(1);
        let c = s.get_char(2);
        proof {
            if a == '*' && b == '.' && c == '*' {
                assert(s@ =~= seq!['*', '.', '*']);
            }
            assert(s@.len() != seq!['*'].len());
        }
        a == '*' && b == '.' && c == '*'
    } else {
        proof {
            assert(s@.len() != seq!['*'].len());
            assert(s@.len() != seq!['*', '.', '*'].len());
        }
        false
    }
}

/// The request for one filter pattern: everything for `"*.*"` and `"*"`,
/// otherwise the extension with a leading `"*."` removed.
pub fn filter_request(pattern: &str) -> (r: ContentTypeRequest)
    ensures
        r@ == spec_filter_request(pattern@),
{
    if is_match_all(pattern) {
        ContentTypeRequest::Data
    } else {
        let n = pattern.unicode_len();
        if n >= 2 && pattern.get_char(0) == '*' && pattern.get_char(1) == '.' {
            ContentTypeRequest::Extension(String::from_str(pattern.substring_char(2, n)))
        } else {
            ContentTypeRequest::Extension(String::from_str(pattern))
        }
    }
}

/// The content types to ask a document picker for.
pub fn content_type_requests(filters: &Vec<FileFilter>, folder: bool) -> (r: Vec<ContentTypeRequest>)
    ensures
        r@.map_values(|c: ContentTypeRequest| c@) == spec_content_type_requests(
            filters@.map_values(|f: FileFilter| f@),
            folder,
        ),
{
    let mut r: Vec<ContentTypeRequest> = Vec::new();
    if folder {
        r.push(ContentTypeRequest::Directory);
        assert(r@.map_values(|c: ContentTypeRequest| c@) =~= seq![ContentTypeRequestView::Directory]);
        return r;
    }
    let ghost fv = filters@.map_values(|f: FileFilter| f@);
    let mut i: usize = 0;
    while i < filters.len()
        invariant
            i <= filters.len(),
            fv == filters@.map_values(|f: FileFilter| f@),
            r@.map_values(|c: ContentTypeRequest| c@) =~= fv.subrange(0, i as int).map_values(
                |f: FileFilterView| spec_filter_request(f.pattern),
            ),
        decreases filters.len() - i,
    {
        let c = filter_request(filters[i].pattern());
        r.push(c);
        assert(fv.subrange(0, i + 1) =~= fv.subrange(0, i as int).push(fv[i as int]));
        assert(r@.map_values(|c: ContentTypeRequest| c@) =~= fv.subrange(0, i as int).map_values(
            |f: FileFilterView| spec_filter_request(f.pattern),
        ).push(spec_filter_request(fv[i as int].pattern)));
        i = i + 1;
    }
    assert(fv.subrange(0, filters.len() as int) =~= fv);
    r
}

/// The content types that the system resolved, in the requests' order, with
/// the unresolved ones left out: `data` alone when none was resolved.
pub open spec fn spec_resolved_types<T>(resolved: Seq<Option<T>>, data: T) -> Seq<T> {
    let kept = resolved.filter_map(|o: Option<T>| o);
    if kept.len() == 0 {
        seq![data]
    } else {
        kept
    }
}

/// Keeps the resolved content types and falls back to `data` when no
/// requested type could be resolved.
pub fn resolved_types<T>(resolved: Vec<Option<T>>, data: T) -> (r: Vec<T>)
    ensures
        r@ == spec_resolved_types(resolved@, data),
{
    let ghost rs = resolved@;
    let mut kept: Vec<T> = Vec::new();
    let mut rest = resolved;
    let n = rest.len();
    let mut i: usize = 0;
    while i < n
        invariant
            n == rs.len(),
            i <= n,
            rest@ == rs.subrange(i as int, n as int),
            kept@ == rs.take(i as int).filter_map(|o: Option<T>| o),
        decreases n - i,
    {
        let o = rest.remove(0);
        proof {
            rs.lemma_filter_map_take_succ(|o: Option<T>| o, i as int);
            assert(rest@ =~= rs.subrange(i + 1, n as int));
        }
        match o {
            Some(v) => {
                kept.push(v);
            },
            None => {},
        }
        i = i + 1;
    }
    assert(rs.take(n as int) =~= rs);
    if kept.len() == 0 {
        kept.push(data);
        assert(kept@ =~= seq![data]);
    }
    kept
}

/// A filter `"*."` followed by an extension asks for that extension, but
/// `"*.*"`, like `"*"`, asks for every file; a pattern that does not start
/// with `"*."` and is not `"*"` asks for itself as an extension.
pub proof fn lemma_filter_request_of_pattern(e: Seq<char>, p: Seq<char>)
    ensures
        spec_filter_request(seq!['*', '.'] + e) == (if e == seq!['*'] {
            ContentTypeRequestView::Data
        } else {
            ContentTypeRequestView::Extension(e)
        }),
        spec_filter_request(seq!['*']) == ContentTypeRequestView::Data,
        !(p.len() >= 2 && p[0] == '*' && p[1] == '.') && p != seq!['*'] ==> spec_filter_request(p)
            == ContentTypeRequestView::Extension(p),
{
    let q = seq!['*', '.'] + e;
    assert(q[0] == '*' && q[1] == '.');
    assert(q.subrange(2, q.len() as int) =~= e);
    if e == seq!['*'] {
        assert(q =~= seq!['*', '.', '*']);
    } else {
        if q == seq!['*', '.', '*'] {
            assert(e =~= q.subrange(2, 3));
            assert(e =~= seq!['*']);
        }
        assert(q.len() != 1);
        assert(q != seq!['*']);
    }
    if p == seq!['*', '.', '*'] {
        assert(p[0] == '*' && p[1] == '.');
    }
}

/// A folder picker asks for folders alone, whatever the filters; a file
/// picker asks, for each filter in its order, for what its pattern asks.
pub proof fn lemma_content_type_requests(filters: Seq<FileFilterView>, folder: bool)
    ensures
        folder ==> spec_content_type_requests(filters, folder) == seq![
            ContentTypeRequestView::Directory,
        ],
        !folder ==> spec_content_type_requests(filters, folder).len() == filters.len(),
        !folder ==> forall|i: int|
            0 <= i < filters.len() ==> #[trigger] spec_content_type_requests(filters, folder)[i]
                == spec_filter_request(filters[i].pattern),
{
}

/// Nothing is kept of a list in which nothing was resolved.
proof fn lemma_none_kept<T>(rs: Seq<Option<T>>, i: int)
    requires
        0 <= i <= rs.len(),
        forall|j: int| 0 <= j < rs.len() ==> (#[trigger] rs[j]) is None,
    ensures
        rs.take(i).filter_map(|o: Option<T>| o).len() == 0,
    decreases i,
{
    if i > 0 {
        lemma_none_kept(rs, i - 1);
        rs.lemma_filter_map_take_succ(|o: Option<T>| o, i - 1);
    }
}

/// Everything is kept, in order, of a list in which everything was resolved.
proof fn lemma_all_kept<T>(rs: Seq<Option<T>>, i: int)
    requires
        0 <= i <= rs.len(),
        forall|j: int| 0 <= j < rs.len() ==> (#[trigger] rs[j]) is Some,
    ensures
        rs.take(i).filter_map(|o: Option<T>| o) == rs.take(i).map_values(|o: Option<T>| o->0),
    decreases i,
{
    if i > 0 {
        lemma_all_kept(rs, i - 1);
        rs.lemma_filter_map_take_succ(|o: Option<T>| o, i - 1);
        assert(rs.take(i).map_values(|o: Option<T>| o->0) =~= rs.take(i - 1).map_values(
            |o: Option<T>| o->0,
        ) + seq![rs[i - 1]->0]);
    } else {
        assert(rs.take(0).filter_map(|o: Option<T>| o) =~= Seq::<T>::empty());
    }
}

/// When the system resolved none of the requested types, the picker asks
/// for any data; when it resolved all of them, the picker asks for them
/// all, in the requests' order.
pub proof fn lemma_resolved_types<T>(resolved: Seq<Option<T>>, data: T)
    ensures
        (forall|j: int| 0 <= j < resolved.len() ==> (#[trigger] resolved[j]) is None)
            ==> spec_resolved_types(resolved, data) == seq![data],
        resolved.len() > 0 && (forall|j: int| 0 <= j < resolved.len() ==> (#[trigger] resolved[j]) is Some)
            ==> spec_resolved_types(resolved, data) == resolved.map_values(|o: Option<T>| o->0),
{
    assert(resolved.take(resolved.len() as int) =~= resolved);
    if forall|j: int| 0 <= j < resolved.len() ==> (#[trigger] resolved[j]) is None {
        lemma_none_kept(resolved, resolved.len() as int);
    }
    if resolved.len() > 0 && (forall|j: int| 0 <= j < resolved.len() ==> (#[trigger] resolved[j]) is Some) {
        lemma_all_kept(resolved, resolved.len() as int);
    }
}

} // verus!
