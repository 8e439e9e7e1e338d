//! Keyset pagination: the checks every page of a list must pass before it is
//! trusted, and how list cursors and legacy `--after-id` values are read.
use vstd::prelude::*;
use vstd::string::*;
use vstd::utf8::*;
use crate::cursor::{CursorKind, decode_numeric_cursor, decode_list_cursor, decoded_numeric_cursor, decoded_list_cursor};
use crate::error::CliError;
use crate::codes::{EXIT_GENERIC_ERROR, EXIT_INVALID_ARGS};

verus! {

/// Byte-wise lexicographic order, the order of `str`.
pub open spec fn bytes_before(a: Seq<u8>, b: Seq<u8>) -> bool
    decreases a.len(),
{
    if a.len() == 0 {
        b.len() > 0
    } else if b.len() == 0 {
        false
    } else if a[0] != b[0] {
        a[0] < b[0]
    } else {
        bytes_before(a.drop_first(), b.drop_first())
    }
}

/// A key by which list pages are ordered.
pub trait PageKey: Sized {
    /// `a` comes strictly before `b`.
    spec fn key_before(a: Self, b: Self) -> bool;

    /// `a` and `b` are the same key.
    spec fn key_same(a: Self, b: Self) -> bool;

    fn before(&self, other: &Self) -> (r: bool)
        ensures
            r == Self::key_before(*self, *other);

    fn same(&self, other: &Self) -> (r: bool)
        ensures
            r == Self::key_same(*self, *other);

    fn copy_key(&self) -> (r: Self)
        ensures
            Self::key_same(r, *self);
}

impl PageKey for i64 {
    open spec fn key_before(a: i64, b: i64) -> bool {
        a < b
    }

    open spec fn key_same(a: i64, b: i64) -> bool {
        a == b
    }

    fn before(&self, other: &i64) -> (r: bool) {
        *self < *other
    }

    fn same(&self, other: &i64) -> (r: bool) {
        *self == *other
    }

    fn copy_key(&self) -> (r: i64) {
        *self
    }
}

proof fn lemma_bytes_before_skip(a: Seq<u8>, b: Seq<u8>, i: int)
    requires
        0 <= i <= a.len(),
        i <= b.len(),
        a.subrange(0, i) == b.subrange(0, i),
    ensures
        bytes_before(a, b) == bytes_before(a.skip(i), b.skip(i)),
    decreases i,
{
    if i > 0 {
        assert(a[0] == a.subrange(0, i)[0]);
        assert(b[0] == b.subrange(0, i)[0]);
        assert(a.drop_first().subrange(0, i - 1) =~= a.subrange(0, i).drop_first());
        assert(b.drop_first().subrange(0, i - 1) =~= b.subrange(0, i).drop_first());
        lemma_bytes_before_skip(a.drop_first(), b.drop_first(), i - 1);
        assert(a.drop_first().skip(i - 1) =~= a.skip(i));
        assert(b.drop_first().skip(i - 1) =~= b.skip(i));
    } else {
        assert(a.skip(0) =~= a);
        assert(b.skip(0) =~= b);
    }
}

pub(crate) fn text_before(a: &str, b: &str) -> (r: bool)
    ensures
        r == bytes_before(a.spec_bytes(), b.spec_bytes()),
{
    let ab = a.as_bytes();
    let bb = b.as_bytes();
    let n = ab.len();
    let m = bb.len();
    let mut i: usize = 0;
    while i < n && i < m
        invariant
            ab@ == a.spec_bytes(),
            bb@ == b.spec_bytes(),
            n == ab@.len(),
            m == bb@.len(),
            i <= n,
            i <= m,
            ab@.subrange(0, i as int) == bb@.subrange(0, i as int),
        decreases n - i,
    {
        if ab[i] != bb[i] {
            proof { lemma_bytes_before_skip(ab@, bb@, i as int); }
            return ab[i] < bb[i];
        }
        assert(ab@.subrange(0, i + 1) =~= bb@.subrange(0, i + 1)) by {
            assert(ab@.subrange(0, i + 1) =~= ab@.subrange(0, i as int).push(ab@[i as int]));
            assert(bb@.subrange(0, i + 1) =~= bb@.subrange(0, i as int).push(bb@[i as int]));
        }
        i = i + 1;
    }
    proof { lemma_bytes_before_skip(ab@, bb@, i as int); }
    i == n && i < m
}

impl PageKey for String {
    open spec fn key_before(a: String, b: String) -> bool {
        bytes_before(encode_utf8(a@), encode_utf8(b@))
    }

    open spec fn key_same(a: String, b: String) -> bool {
        a@ == b@
    }

    fn before(&self, other: &String) -> (r: bool) {
        text_before(self.as_str(), other.as_str())
    }

    fn same(&self, other: &String) -> (r: bool) {
        crate::text::same_text(self.as_str(), other.as_str())
    }

    fn copy_key(&self) -> (r: String) {
        self.clone()
    }
}

/// Why a list could not be produced.
#[derive(Debug)]
pub enum ListError {
    Db(rusqlite::Error),
    Pagination(&'static str),
}

impl From<rusqlite::Error> for ListError {
    fn from(error: rusqlite::Error) -> (r: Self) {
        ListError::Db(error)
    }
}

impl vstd::std_specs::convert::FromSpecImpl<rusqlite::Error> for ListError {
    open spec fn obeys_from_spec() -> bool {
        true
    }

    open spec fn from_spec(v: rusqlite::Error) -> ListError {
        ListError::Db(v)
    }
}

impl ListError {
    /// The error a list command reports for this failure.
    pub fn into_cli_error(self) -> (e: CliError)
        ensures
            match self {
                ListError::Db(_) => e.is_db_schema(),
                ListError::Pagination(reason) => e.has(EXIT_GENERIC_ERROR, "PAGINATION_ERROR"@, reason@,
                    "retry the node list from the first page; run doctor if the error repeats"@),
            },
    {
        match self {
            ListError::Db(db) => CliError::db_schema(db),
            ListError::Pagination(reason) => CliError::pagination(reason),
        }
    }
}

/// One page of a list: its items, the key to continue after, and whether more follow.
#[derive(Debug)]
pub struct Page<T, K> {
    pub items: Vec<T>,
    pub next_after_id: Option<K>,
    pub more_results: bool,
}

/// Each key comes strictly after the one before it, the first after `after_key`.
pub open spec fn keys_progress<K: PageKey>(after_key: Option<K>, keys: Seq<K>) -> bool {
    &&& forall|i: int| 0 < i < keys.len() ==> K::key_before(keys[i - 1], #[trigger] keys[i])
    &&& match after_key {
        Some(a) => keys.len() > 0 ==> K::key_before(a, keys[0]),
        None => true,
    }
}

/// What `validate_page` decides for a page whose item keys are `keys`.
pub open spec fn page_verdict<K: PageKey>(
    keys: Seq<K>,
    next_after_id: Option<K>,
    more_results: bool,
    after_key: Option<K>,
    page_size: usize,
) -> Result<Option<K>, Seq<char>> {
    if keys.len() > page_size {
        Err("list page exceeded the requested page size"@)
    } else if !keys_progress(after_key, keys) {
        Err("list page contained a duplicate or non-progressing key"@)
    } else if more_results {
        match next_after_id {
            Some(n) => if keys.len() > 0 && K::key_same(keys.last(), n) {
                Ok(Some(n))
            } else {
                Err("incomplete list page did not provide a progressing cursor"@)
            },
            None => Err("incomplete list page did not provide a progressing cursor"@),
        }
    } else {
        match next_after_id {
            None => Ok(None),
            Some(_) => Err("complete list page unexpectedly provided a continuation cursor"@),
        }
    }
}

/// Checks a fetched page: no larger than asked for, keys strictly increasing from
/// `after_key`, and a continuation key exactly when more results follow, equal to
/// the last key.  `item_keys[i]` is the key of `page.items[i]`.  On success returns
/// the key to continue after.
pub fn validate_page<T, K: PageKey>(
    page: &Page<T, K>,
    item_keys: &Vec<K>,
    after_key: Option<&K>,
    page_size: usize,
) -> (r: Result<Option<K>, ListError>)
    requires
        item_keys@.len() == page.items@.len(),
    ensures
        match page_verdict(item_keys@, page.next_after_id, page.more_results,
            match after_key { Some(a) => Some(*a), None => None }, page_size) {
            Ok(None) => r matches Ok(None),
            Ok(Some(n)) => r matches Ok(Some(k)) && K::key_same(k, n),
            Err(m) => r matches Err(ListError::Pagination(reason)) && reason@ == m,
        },
{
    let ghost after = match after_key { Some(a) => Some(*a), None => None };
    if item_keys.len() > page_size {
        return Err(ListError::Pagination("list page exceeded the requested page size"));
    }
    let n = item_keys.len();
    let mut i: usize = 0;
    while i < n
        invariant
            n == item_keys@.len(),
            n <= page_size,
            i <= n,
            after == match after_key { Some(a) => Some(*a), None => None },
            keys_progress(after, item_keys@.take(i as int)),
        decreases n - i,
    {
        let key = &item_keys[i];
        let progressing = if i == 0 {
            match after_key {
                Some(a) => a.before(key),
                None => true,
            }
        } else {
            item_keys[i - 1].before(key)
        };
        if !progressing {
            proof {
                if i == 0 {
                    assert(!K::key_before(after->0, item_keys@[0]));
                } else {
                    assert(!K::key_before(item_keys@[i - 1], item_keys@[i as int]));
                }
                assert(!keys_progress(after, item_keys@));
            }
            return Err(ListError::Pagination("list page contained a duplicate or non-progressing key"));
        }
        proof {
            let next = item_keys@.take(i + 1);
            assert forall|j: int| 0 < j < next.len() implies K::key_before(next[j - 1], #[trigger] next[j]) by {
                if j < i {
                    assert(next[j] == item_keys@.take(i as int)[j]);
                    assert(next[j - 1] == item_keys@.take(i as int)[j - 1]);
                }
            }
        }
        i = i + 1;
    }
    assert(item_keys@.take(n as int) =~= item_keys@);
    if page.more_results {
        match &page.next_after_id {
            Some(next_key) => {
                if n > 0 && item_keys[n - 1].same(next_key) {
                    Ok(Some(next_key.copy_key()))
                } else {
                    Err(ListError::Pagination("incomplete list page did not provide a progressing cursor"))
                }
            },
            None => Err(ListError::Pagination("incomplete list page did not provide a progressing cursor")),
        }
    } else {
        match &page.next_after_id {
            None => Ok(None),
            Some(_) => Err(ListError::Pagination("complete list page unexpectedly provided a continuation cursor")),
        }
    }
}

/// `validate_page` for a page of nodes keyed by id.
pub fn validate_node_page<T>(
    page: &Page<T, i64>,
    item_ids: &Vec<i64>,
    after_id: Option<i64>,
    page_size: usize,
) -> (r: Result<Option<i64>, ListError>)
    requires
        item_ids@.len() == page.items@.len(),
    ensures
        match page_verdict(item_ids@, page.next_after_id, page.more_results, after_id, page_size) {
            Ok(v) => r == Ok::<Option<i64>, ListError>(v),
            Err(m) => r matches Err(ListError::Pagination(reason)) && reason@ == m,
        },
{
    let after = match &after_id { Some(a) => Some(a), None => None };
    validate_page(page, item_ids, after, page_size)
}

/// The page of tool contracts as a generic list page.
pub fn tool_contracts_page<T>(items: Vec<T>, next_after_id: Option<String>, more_results: bool) -> (r: Page<T, String>)
    ensures
        r.items == items,
        r.next_after_id == next_after_id,
        r.more_results == more_results,
{
    Page { items, next_after_id, more_results }
}

/// Where a numeric list resumes: after the key in `cursor`, or else after the
/// legacy `--after-id`.
pub fn numeric_cursor_or_legacy(
    cursor: Option<&str>,
    legacy_after_id: Option<i64>,
    kind: CursorKind,
    scope: &str,
) -> (r: Result<Option<i64>, CliError>)
    ensures
        match cursor {
            None => r == Ok::<Option<i64>, CliError>(legacy_after_id),
            Some(c) => match decoded_numeric_cursor(kind, scope@, c@) {
                Ok(id) => r == Ok::<Option<i64>, CliError>(Some(id as i64)),
                Err(m) => r matches Err(e) && e.has(EXIT_INVALID_ARGS, "INVALID_CURSOR"@,
                    "invalid list cursor: "@ + m,
                    "use the opaque `next_cursor` returned by the previous page of the same list and filter scope"@),
            },
        },
{
    match cursor {
        None => Ok(legacy_after_id),
        Some(c) => match decode_numeric_cursor(c, kind, scope) {
            Ok(id) => Ok(Some(id)),
            Err(reason) => Err(CliError::invalid_cursor(reason)),
        },
    }
}

/// Where a string-keyed list resumes: after the key in `cursor`, or else after the
/// legacy `--after-id`.
pub fn string_cursor_or_legacy(
    cursor: Option<&str>,
    legacy_after_id: Option<&str>,
    kind: CursorKind,
    scope: &str,
) -> (r: Result<Option<String>, CliError>)
    ensures
        match cursor {
            None => match legacy_after_id {
                None => r matches Ok(None),
                Some(l) => r matches Ok(Some(k)) && k@ == l@,
            },
            Some(c) => match decoded_list_cursor(kind, scope@, c@) {
                Ok(key) => r matches Ok(Some(k)) && k@ == key,
                Err(m) => r matches Err(e) && e.has(EXIT_INVALID_ARGS, "INVALID_CURSOR"@,
                    "invalid list cursor: "@ + m,
                    "use the opaque `next_cursor` returned by the previous page of the same list and filter scope"@),
            },
        },
{
    match cursor {
        None => match legacy_after_id {
            None => Ok(None),
            Some(l) => Ok(Some(l.to_owned())),
        },
        Some(c) => match decode_list_cursor(c, kind, scope) {
            Ok(key) => Ok(Some(key)),
            Err(reason) => Err(CliError::invalid_cursor(reason)),
        },
    }
}

/// A list read page by page: the items so far, and the key after which the next
/// page starts. The caller fetches each page and hands it to `accept`.
#[derive(Debug)]
pub struct PageCollector<T, K> {
    pub items: Vec<T>,
    pub after_key: Option<K>,
}

/// What follows an accepted page: the next fetch, or the whole list.
#[derive(Debug)]
pub enum CollectStep<T, K> {
    Next(PageCollector<T, K>),
    Done(Page<T, K>),
}

impl<T, K: PageKey> PageCollector<T, K> {
    /// Nothing read yet; the first page starts at the beginning.
    pub fn new() -> (c: Self)
        ensures
            c.items@.len() == 0,
            c.after_key is None,
    {
        PageCollector { items: Vec::new(), after_key: None }
    }

    /// Takes the next page of the list, fetched after `self.after_key` with
    /// `page_size`. A page that fails validation ends the read with its error. Items
    /// accumulate in order; the page that says nothing follows completes the list.
    pub fn accept(self, page: Page<T, K>, item_keys: &Vec<K>, page_size: usize)
        -> (r: Result<CollectStep<T, K>, ListError>)
        requires
            item_keys@.len() == page.items@.len(),
        ensures
            match page_verdict(item_keys@, page.next_after_id, page.more_results, self.after_key, page_size) {
                Err(m) => r matches Err(ListError::Pagination(reason)) && reason@ == m,
                Ok(next) => if page.more_results {
                    &&& r matches Ok(CollectStep::Next(c))
                    &&& c.items@ == self.items@ + page.items@
                    &&& next matches Some(n) && c.after_key matches Some(k) && K::key_same(k, n)
                } else {
                    &&& r matches Ok(CollectStep::Done(p))
                    &&& p.items@ == self.items@ + page.items@
                    &&& p.next_after_id is None
                    &&& !p.more_results
                },
            },
    {
        let after = match &self.after_key {
            Some(a) => Some(a),
            None => None,
        };
        let next = match validate_page(&page, item_keys, after, page_size) {
            Ok(next) => next,
            Err(e) => return Err(e),
        };
        let more_results = page.more_results;
        let mut items = self.items;
        let mut page_items = page.items;
        items.append(&mut page_items);
        if more_results {
            Ok(CollectStep::Next(PageCollector { items, after_key: next }))
        } else {
            Ok(CollectStep::Done(Page { items, next_after_id: None, more_results: false }))
        }
    }
}

/// A page of nodes, and whether bodies were left out or content truncated on it.
#[derive(Debug)]
pub struct NodePage<T> {
    pub page: Page<T, i64>,
    pub body_omitted: bool,
    pub content_truncated: bool,
}

/// All nodes read page by page: a page collector keyed by node id that also keeps
/// whether any page left out bodies or truncated content.
#[derive(Debug)]
pub struct NodePageCollector<T> {
    pub pages: PageCollector<T, i64>,
    pub body_omitted: bool,
    pub content_truncated: bool,
}

/// What follows an accepted node page: the next fetch, or all nodes.
#[derive(Debug)]
pub enum NodeCollectStep<T> {
    Next(NodePageCollector<T>),
    Done(NodePage<T>),
}

impl<T> NodePageCollector<T> {
    /// Nothing read yet.
    pub fn new() -> (c: Self)
        ensures
            c.pages.items@.len() == 0,
            c.pages.after_key is None,
            !c.body_omitted,
            !c.content_truncated,
    {
        NodePageCollector { pages: PageCollector::new(), body_omitted: false, content_truncated: false }
    }

    /// Takes the next page of nodes; `item_ids[i]` is the id of `page.page.items[i]`.
    pub fn accept(self, page: NodePage<T>, item_ids: &Vec<i64>, page_size: usize)
        -> (r: Result<NodeCollectStep<T>, ListError>)
        requires
            item_ids@.len() == page.page.items@.len(),
        ensures
            match page_verdict(item_ids@, page.page.next_after_id, page.page.more_results, self.pages.after_key, page_size) {
                Err(m) => r matches Err(ListError::Pagination(reason)) && reason@ == m,
                Ok(next) => if page.page.more_results {
                    &&& r matches Ok(NodeCollectStep::Next(c))
                    &&& c.pages.items@ == self.pages.items@ + page.page.items@
                    &&& c.pages.after_key == next
                    &&& c.body_omitted == (self.body_omitted || page.body_omitted)
                    &&& c.content_truncated == (self.content_truncated || page.content_truncated)
                } else {
                    &&& r matches Ok(NodeCollectStep::Done(p))
                    &&& p.page.items@ == self.pages.items@ + page.page.items@
                    &&& p.page.next_after_id is None
                    &&& !p.page.more_results
                    &&& p.body_omitted == (self.body_omitted || page.body_omitted)
                    &&& p.content_truncated == (self.content_truncated || page.content_truncated)
                },
            },
    {
        let body_omitted = self.body_omitted || page.body_omitted;
        let content_truncated = self.content_truncated || page.content_truncated;
        match self.pages.accept(page.page, item_ids, page_size) {
            Err(e) => Err(e),
            Ok(CollectStep::Next(pages)) => Ok(NodeCollectStep::Next(NodePageCollector { pages, body_omitted, content_truncated })),
            Ok(CollectStep::Done(page)) => Ok(NodeCollectStep::Done(NodePage { page, body_omitted, content_truncated })),
        }
    }
}

/// Reading on after an accepted page always moves forward: the next page starts
/// after the last key of this one, which comes strictly after where this page started.
pub proof fn lemma_collection_progresses<K: PageKey>(
    keys: Seq<K>,
    next_after_id: Option<K>,
    after_key: Option<K>,
    page_size: usize,
)
    requires
        page_verdict(keys, next_after_id, true, after_key, page_size) is Ok,
    ensures
        keys.len() > 0,
        page_verdict(keys, next_after_id, true, after_key, page_size) == Ok::<Option<K>, Seq<char>>(next_after_id),
        next_after_id matches Some(n) && K::key_same(keys.last(), n),
        after_key matches Some(a) ==> K::key_before(a, keys[0]),
        forall|i: int| 0 < i < keys.len() ==> K::key_before(keys[i - 1], #[trigger] keys[i]),
{
}

} // verus!
