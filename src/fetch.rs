use vstd::prelude::*;
use vstd::string::*;
use crate::http::{is_success, success_status};
use crate::cache::{load_cached_data, CacheSnapshot};
use crate::model::{Credentials, Endpoint};

verus! {

/// Whether some record of `s` carries the identifier `id`.
pub open spec fn has_id(s: Seq<Endpoint>, id: Seq<char>) -> bool {
    exists|i: int| 0 <= i < s.len() && (#[trigger] s[i]).id@ == id
}

/// No two records of `s` share an identifier.
pub open spec fn unique_ids(s: Seq<Endpoint>) -> bool {
    forall|i: int, j: int| 0 <= i < j < s.len() ==> (#[trigger] s[i]).id@ != (#[trigger] s[j]).id@
}

/// `acc` followed by each record of `items` whose identifier is not yet
/// present, earlier records first: later repeats of an identifier are dropped.
pub open spec fn merge_unique(acc: Seq<Endpoint>, items: Seq<Endpoint>) -> Seq<Endpoint>
    decreases items.len(),
{
    if items.len() == 0 {
        acc
    } else {
        let prev = merge_unique(acc, items.drop_last());
        if has_id(prev, items.last().id@) {
            prev
        } else {
            prev.push(items.last())
        }
    }
}

/// The first record of each identifier in `items`, in order of first appearance.
pub open spec fn first_occurrences(items: Seq<Endpoint>) -> Seq<Endpoint> {
    merge_unique(Seq::empty(), items)
}

/// Whether some record of `acc` carries the identifier `id`.
pub fn contains_id(acc: &Vec<Endpoint>, id: &String) -> (r: bool)
    ensures
        r == has_id(acc@, id@),
{
    let mut i: usize = 0;
    while i < acc.len()
        invariant
            i <= acc.len(),
            forall|k: int| 0 <= k < i ==> (#[trigger] acc@[k]).id@ != id@,
        decreases acc.len() - i,
    {
        if acc[i].id == *id {
            return true;
        }
        i = i + 1;
    }
    false
}

/// Appends to `acc` each record of `items` whose identifier it does not hold
/// yet, in page order; returns how many were appended.
pub fn merge_page(acc: &mut Vec<Endpoint>, items: Vec<Endpoint>) -> (added: usize)
    ensures
        final(acc)@ == merge_unique(old(acc)@, items@),
        final(acc)@.len() == old(acc)@.len() + added,
{
    let ghost acc0 = acc@;
    let ghost items0 = items@;
    let start: usize = acc.len();
    for e in it: items
        invariant
            it.seq() == items0,
            acc@ == merge_unique(acc0, items0.take(it.index() as int)),
            start == acc0.len(),
            acc0.len() <= acc@.len(),
    {
        proof {
            assert(items0.take(it.index() + 1).drop_last() == items0.take(it.index() as int));
        }
        if !contains_id(acc, &e.id) {
            acc.push(e);
        }
    }
    proof {
        assert(items0.take(items0.len() as int) == items0);
    }
    acc.len() - start
}

/// Inventory URL of the region `region`, without query.
pub open spec fn inventory_url(region: Seq<char>) -> Seq<char> {
    "https://api-"@ + region + ".central.sophos.com/endpoint/v1/endpoints"@
}

/// URL of the page that follows `cursor` (the first page when there is none).
pub open spec fn page_url(base: Seq<char>, cursor: Option<Seq<char>>) -> Seq<char> {
    let sized = base + "?pageSize=100"@;
    match cursor {
        Some(key) => sized + "&pageFromKey="@ + key,
        None => sized,
    }
}

/// What a page's metadata says of the cursor for the next page.
#[derive(Debug)]
pub enum NextKey {
    /// No page metadata, or metadata without a `nextKey` field.
    Missing,
    /// A `nextKey` field whose value is not a string.
    NotText,
    /// A `nextKey` field holding this string.
    Text(String),
}

/// A page request: its number (from 1) and its URL.
#[derive(Debug)]
pub struct PageRequest {
    pub page: u64,
    pub url: String,
}

/// Why a fetch stopped without a result; `page` is the number of the page
/// being requested.
#[derive(Debug)]
pub enum FetchError {
    /// The request could not be sent or answered.
    Request { page: u64, detail: String },
    /// The service answered with a status outside 2xx; `body` is its text
    /// (empty if that could not be read).
    Status { page: u64, status: u16, body: String },
    /// A 2xx answer whose body could not be read.
    Read { page: u64, detail: String },
    /// A 2xx answer whose body is not a page of records.
    Parse { page: u64, detail: String },
}

/// The state of one paginated fetch, seen as plain values.
pub struct PaginationView {
    pub base_url: Seq<char>,
    pub endpoints: Seq<Endpoint>,
    pub cursor: Option<Seq<char>>,
    pub pages: nat,
    pub finished: bool,
}

/// Whether a page with `items` and metadata `next` asks for another page.
pub open spec fn continues(items: Seq<Endpoint>, next: NextKey) -> bool {
    items.len() > 0 && next is Text
}

/// The state after page `v.pages + 1` came back with `items` and `next`.
/// The page counter is a `u64`: pagination stops once it is exhausted.
pub open spec fn after_page(v: PaginationView, items: Seq<Endpoint>, next: NextKey) -> PaginationView {
    let pages = v.pages + 1;
    let more = continues(items, next) && pages < u64::MAX;
    PaginationView {
        base_url: v.base_url,
        endpoints: merge_unique(v.endpoints, items),
        cursor: if more {
            Some(next->Text_0@)
        } else {
            v.cursor
        },
        pages,
        finished: !more,
    }
}

/// A cursor-driven walk over the pages of the inventory, accumulating the
/// records of each page with repeats of an identifier dropped.
pub struct Pagination {
    base_url: String,
    endpoints: Vec<Endpoint>,
    cursor: Option<String>,
    pages: u64,
    finished: bool,
}

impl View for Pagination {
    type V = PaginationView;

    closed spec fn view(&self) -> PaginationView {
        PaginationView {
            base_url: self.base_url@,
            endpoints: self.endpoints@,
            cursor: match self.cursor {
                Some(c) => Some(c@),
                None => None,
            },
            pages: self.pages as nat,
            finished: self.finished,
        }
    }
}

impl Pagination {
    /// The accumulated records hold each identifier once, and an unfinished
    /// walk can still number its next page.
    pub open spec fn wf(&self) -> bool {
        &&& unique_ids(self@.endpoints)
        &&& !self@.finished ==> self@.pages < u64::MAX
    }

    /// A walk over the inventory of `region`, before its first page.
    pub fn new(region: &String) -> (r: Pagination)
        ensures
            r.wf(),
            r@.base_url == inventory_url(region@),
            r@.endpoints == Seq::<Endpoint>::empty(),
            r@.cursor is None,
            r@.pages == 0,
            !r@.finished,
    {
        let mut base_url = String::from_str("https://api-");
        base_url.append(region.as_str());
        base_url.append(".central.sophos.com/endpoint/v1/endpoints");
        Pagination { base_url, endpoints: Vec::new(), cursor: None, pages: 0, finished: false }
    }

    /// Whether the walk has ended.
    pub fn is_finished(&self) -> (r: bool)
        ensures
            r == self@.finished,
    {
        self.finished
    }

    /// How many pages have been taken in.
    pub fn pages_fetched(&self) -> (r: u64)
        ensures
            r == self@.pages,
    {
        self.pages
    }

    /// The records gathered so far.
    pub fn endpoints(&self) -> (r: &Vec<Endpoint>)
        ensures
            r@ == self@.endpoints,
    {
        &self.endpoints
    }

    /// The records gathered, ending the walk.
    pub fn into_endpoints(self) -> (r: Vec<Endpoint>)
        ensures
            r@ == self@.endpoints,
    {
        self.endpoints
    }

    /// The next page to request, or `None` once the walk has ended.
    pub fn next_request(&self) -> (r: Option<PageRequest>)
        requires
            self.wf(),
        ensures
            r is None <==> self@.finished,
            r matches Some(req) ==> req.page == self@.pages + 1 && req.url@ == page_url(
                self@.base_url,
                self@.cursor,
            ),
    {
        if self.finished {
            return None;
        }
        let mut url = self.base_url.clone();
        url.append("?pageSize=100");
        match &self.cursor {
            Some(key) => {
                url.append("&pageFromKey=");
                url.append(key.as_str());
            },
            None => {},
        }
        Some(PageRequest { page: self.pages + 1, url })
    }

    /// Takes in the records and metadata of the page just requested.
    pub fn accept_page(&mut self, items: Vec<Endpoint>, next: NextKey)
        requires
            old(self).wf(),
            !old(self)@.finished,
        ensures
            final(self).wf(),
            final(self)@ == after_page(old(self)@, items@, next),
    {
        let nonempty = items.len() > 0;
        proof {
            lemma_merge_keeps_unique(self.endpoints@, items@);
        }
        merge_page(&mut self.endpoints, items);
        self.pages = self.pages + 1;
        match next {
            NextKey::Text(key) => {
                if nonempty && self.pages < u64::MAX {
                    self.cursor = Some(key);
                } else {
                    self.finished = true;
                }
            },
            _ => {
                self.finished = true;
            },
        }
    }

    /// The error for a request of the current page that got no answer.
    pub fn request_failed(&self, detail: String) -> (r: FetchError)
        requires
            self.wf(),
            !self@.finished,
        ensures
            r == (FetchError::Request { page: (self@.pages + 1) as u64, detail }),
    {
        FetchError::Request { page: self.pages + 1, detail }
    }

    /// Judges the answer to the current page request from its status and the
    /// outcome of reading its body: the body text of a 2xx answer, or the
    /// error that ends the fetch.
    pub fn check_response(&self, status: u16, body: Result<String, String>) -> (r: Result<
        String,
        FetchError,
    >)
        requires
            self.wf(),
            !self@.finished,
        ensures
            success_status(status) ==> r == match body {
                Ok(text) => Ok(text),
                Err(detail) => Err(FetchError::Read { page: (self@.pages + 1) as u64, detail }),
            },
            !success_status(status) ==> (r matches Err(FetchError::Status { page, status: s, body: b })
                && page == self@.pages + 1 && s == status && b@ == match body {
                Ok(text) => text@,
                Err(_) => Seq::<char>::empty(),
            }),
    {
        let page = self.pages + 1;
        if is_success(status) {
            match body {
                Ok(text) => Ok(text),
                Err(detail) => Err(FetchError::Read { page, detail }),
            }
        } else {
            let body = match body {
                Ok(text) => text,
                Err(_) => String::new(),
            };
            Err(FetchError::Status { page, status, body })
        }
    }

    /// The error for a 2xx answer to the current page request whose body is
    /// not a page of records.
    pub fn parse_failed(&self, detail: String) -> (r: FetchError)
        requires
            self.wf(),
            !self@.finished,
        ensures
            r == (FetchError::Parse { page: (self@.pages + 1) as u64, detail }),
    {
        FetchError::Parse { page: self.pages + 1, detail }
    }
}

/// How a fetch begins: with the cached records, or with a walk over pages.
pub enum FetchStart {
    Cached(Vec<Endpoint>),
    Paginate(Pagination),
}

/// Consults the stored snapshot first: a fresh snapshot of the tenant of
/// `credentials` answers the fetch without any request; otherwise a walk over
/// the inventory of its region begins.
pub fn begin_fetch(stored: Option<CacheSnapshot>, credentials: &Credentials) -> (r: FetchStart)
    ensures
        r matches FetchStart::Paginate(p) ==> p.wf() && p@ == start_view(credentials.region@),
        r matches FetchStart::Cached(records) ==> (stored matches Some(snapshot)
            && snapshot.tenant_id@ == credentials.tenant_id@ && records == snapshot.endpoints),
        stored is None ==> r is Paginate,
        stored matches Some(snapshot) && snapshot.tenant_id@ != credentials.tenant_id@ ==> r is Paginate,
{
    match load_cached_data(stored, &credentials.tenant_id) {
        Some(records) => FetchStart::Cached(records),
        None => {
            let p = Pagination::new(&credentials.region);
            assert(p@ == start_view(credentials.region@));
            FetchStart::Paginate(p)
        },
    }
}

/// Any records of `items` whose identifier is already in `acc` leave it unchanged.
pub proof fn lemma_merge_keeps_unique(acc: Seq<Endpoint>, items: Seq<Endpoint>)
    requires
        unique_ids(acc),
    ensures
        unique_ids(merge_unique(acc, items)),
    decreases items.len(),
{
    if items.len() > 0 {
        lemma_merge_keeps_unique(acc, items.drop_last());
    }
}

/// A record's identifier is in the merge exactly when it is in `acc` or in `items`.
pub proof fn lemma_merge_has_id(acc: Seq<Endpoint>, items: Seq<Endpoint>, id: Seq<char>)
    ensures
        has_id(merge_unique(acc, items), id) <==> (has_id(acc, id) || has_id(items, id)),
    decreases items.len(),
{
    if items.len() > 0 {
        let rest = items.drop_last();
        lemma_merge_has_id(acc, rest, id);
        let prev = merge_unique(acc, rest);
        if has_id(items, id) && !has_id(rest, id) {
            let i = choose|i: int| 0 <= i < items.len() && (#[trigger] items[i]).id@ == id;
            assert(i == items.len() - 1) by {
                if i < items.len() - 1 {
                    assert(rest[i] == items[i]);
                }
            }
        }
        if has_id(rest, id) {
            let i = choose|i: int| 0 <= i < rest.len() && (#[trigger] rest[i]).id@ == id;
            assert(items[i] == rest[i]);
        }
        if !has_id(prev, items.last().id@) {
            let merged = prev.push(items.last());
            if has_id(prev, id) {
                let i = choose|i: int| 0 <= i < prev.len() && (#[trigger] prev[i]).id@ == id;
                assert(merged[i] == prev[i]);
            }
            if has_id(merged, id) && items.last().id@ != id {
                let i = choose|i: int| 0 <= i < merged.len() && (#[trigger] merged[i]).id@ == id;
                assert(merged[i] == prev[i]);
            }
            assert(merged[prev.len() as int] == items.last());
            assert(items[items.len() - 1] == items.last());
        }
    }
}

/// Merging `a` then `b` is merging `a + b` at once.
pub proof fn lemma_merge_concat(acc: Seq<Endpoint>, a: Seq<Endpoint>, b: Seq<Endpoint>)
    ensures
        merge_unique(acc, a + b) == merge_unique(merge_unique(acc, a), b),
    decreases b.len(),
{
    if b.len() == 0 {
        assert(a + b == a);
    } else {
        lemma_merge_concat(acc, a, b.drop_last());
        assert((a + b).drop_last() == a + b.drop_last());
        assert((a + b).last() == b.last());
    }
}

/// Records whose identifiers `acc` already holds add nothing to it.
pub proof fn lemma_merge_absorbs(acc: Seq<Endpoint>, items: Seq<Endpoint>)
    requires
        forall|i: int| 0 <= i < items.len() ==> has_id(acc, (#[trigger] items[i]).id@),
    ensures
        merge_unique(acc, items) == acc,
    decreases items.len(),
{
    if items.len() > 0 {
        let rest = items.drop_last();
        assert forall|i: int| 0 <= i < rest.len() implies has_id(acc, (#[trigger] rest[i]).id@) by {
            assert(rest[i] == items[i]);
        }
        lemma_merge_absorbs(acc, rest);
        assert(has_id(acc, items[items.len() - 1].id@));
    }
}

/// Feeding two pages that share identifiers gives each identifier once, in
/// order of first appearance over both pages: the first record of each
/// identifier in `first + second`, and no identifier that neither page holds.
pub proof fn dedup_across_pages(first: Seq<Endpoint>, second: Seq<Endpoint>)
    ensures
        merge_unique(merge_unique(Seq::empty(), first), second) == first_occurrences(first + second),
        unique_ids(first_occurrences(first + second)),
        forall|id: Seq<char>|
            has_id(first_occurrences(first + second), id) <==> #[trigger] has_id(first + second, id),
{
    lemma_merge_concat(Seq::empty(), first, second);
    lemma_merge_keeps_unique(Seq::empty(), first + second);
    assert forall|id: Seq<char>|
        has_id(first_occurrences(first + second), id) <==> #[trigger] has_id(first + second, id) by {
        lemma_merge_has_id(Seq::empty(), first + second, id);
    }
}

/// Each record that deduplication keeps is the first record of its
/// identifier in the input.
pub proof fn kept_records_are_first_occurrences(items: Seq<Endpoint>)
    ensures
        forall|k: int|
            0 <= k < first_occurrences(items).len() ==> exists|j: int|
                0 <= j < items.len() && items[j] == #[trigger] first_occurrences(items)[k] && forall|
                    i: int,
                | 0 <= i < j ==> (#[trigger] items[i]).id@ != items[j].id@,
    decreases items.len(),
{
    if items.len() > 0 {
        let rest = items.drop_last();
        kept_records_are_first_occurrences(rest);
        let prev = first_occurrences(rest);
        let last = items.last();
        lemma_merge_has_id(Seq::empty(), rest, last.id@);
        assert forall|k: int| 0 <= k < first_occurrences(items).len() implies exists|j: int|
            0 <= j < items.len() && items[j] == #[trigger] first_occurrences(items)[k] && forall|
                i: int,
            | 0 <= i < j ==> (#[trigger] items[i]).id@ != items[j].id@ by {
            if k < prev.len() {
                let j = choose|j: int|
                    0 <= j < rest.len() && rest[j] == #[trigger] prev[k] && forall|i: int|
                        0 <= i < j ==> (#[trigger] rest[i]).id@ != rest[j].id@;
                assert(items[j] == rest[j]);
                assert forall|i: int| 0 <= i < j implies (#[trigger] items[i]).id@ != items[j].id@ by {
                    assert(items[i] == rest[i]);
                }
            } else {
                let j = items.len() - 1;
                assert(items[j] == last);
                assert forall|i: int| 0 <= i < j implies (#[trigger] items[i]).id@ != items[j].id@ by {
                    assert(items[i] == rest[i]);
                    if items[i].id@ == last.id@ {
                        assert(has_id(rest, last.id@));
                    }
                }
            }
        }
    }
}

/// Feeding the same page twice gives what feeding it once gives.
pub proof fn merge_is_idempotent(acc: Seq<Endpoint>, items: Seq<Endpoint>)
    ensures
        merge_unique(merge_unique(acc, items), items) == merge_unique(acc, items),
{
    let once = merge_unique(acc, items);
    assert forall|i: int| 0 <= i < items.len() implies has_id(once, (#[trigger] items[i]).id@) by {
        lemma_merge_has_id(acc, items, items[i].id@);
    }
    lemma_merge_absorbs(once, items);
}

/// The walk in `v` after it is fed `pages` (the records and the metadata of
/// each) one by one; pages that come after it has ended change nothing.
pub open spec fn drive(v: PaginationView, pages: Seq<(Seq<Endpoint>, NextKey)>) -> PaginationView
    decreases pages.len(),
{
    if pages.len() == 0 || v.finished {
        v
    } else {
        drive(after_page(v, pages[0].0, pages[0].1), pages.drop_first())
    }
}

/// The records of all `pages`, in order.
pub open spec fn page_items(pages: Seq<(Seq<Endpoint>, NextKey)>) -> Seq<Endpoint>
    decreases pages.len(),
{
    if pages.len() == 0 {
        Seq::empty()
    } else {
        pages[0].0 + page_items(pages.drop_first())
    }
}

/// The walk that `Pagination::new` starts for `region`.
pub open spec fn start_view(region: Seq<char>) -> PaginationView {
    PaginationView {
        base_url: inventory_url(region),
        endpoints: Seq::empty(),
        cursor: None,
        pages: 0,
        finished: false,
    }
}

proof fn lemma_drive_until_missing(
    v: PaginationView,
    pages: Seq<(Seq<Endpoint>, NextKey)>,
    extra: Seq<(Seq<Endpoint>, NextKey)>,
)
    requires
        !v.finished,
        pages.len() > 0,
        v.pages + pages.len() < u64::MAX,
        forall|i: int| 0 <= i < pages.len() - 1 ==> continues((#[trigger] pages[i]).0, pages[i].1),
        pages.last().1 is Missing,
    ensures
        drive(v, pages + extra).finished,
        drive(v, pages + extra).pages == v.pages + pages.len(),
        drive(v, pages + extra).endpoints == merge_unique(v.endpoints, page_items(pages)),
    decreases pages.len(),
{
    let all = pages + extra;
    let rest = pages.drop_first();
    assert(all[0] == pages[0]);
    assert(all.drop_first() == rest + extra);
    let next = after_page(v, pages[0].0, pages[0].1);
    if pages.len() == 1 {
        assert(rest.len() == 0);
        assert(page_items(rest) == Seq::<Endpoint>::empty());
        assert(page_items(pages) == pages[0].0 + Seq::<Endpoint>::empty());
        assert(pages[0].0 + Seq::<Endpoint>::empty() == pages[0].0);
        assert(pages.last() == pages[0]);
    } else {
        assert(continues(pages[0].0, pages[0].1));
        assert forall|i: int| 0 <= i < rest.len() - 1 implies continues(
            (#[trigger] rest[i]).0,
            rest[i].1,
        ) by {
            assert(rest[i] == pages[i + 1]);
        }
        assert(rest.last() == pages.last());
        lemma_drive_until_missing(next, rest, extra);
        lemma_merge_concat(v.endpoints, pages[0].0, page_items(rest));
    }
}

/// Pages that each hold records and name a next cursor, ended by a page
/// whose metadata has no `nextKey`, are all taken in and the walk ends there:
/// it gathers the first record of each identifier over all of them, and
/// whatever pages would follow are never taken.
pub proof fn pagination_stops_without_next_key(
    region: Seq<char>,
    pages: Seq<(Seq<Endpoint>, NextKey)>,
    extra: Seq<(Seq<Endpoint>, NextKey)>,
)
    requires
        pages.len() > 0,
        pages.len() < u64::MAX,
        forall|i: int| 0 <= i < pages.len() - 1 ==> continues((#[trigger] pages[i]).0, pages[i].1),
        pages.last().1 is Missing,
    ensures
        drive(start_view(region), pages + extra).finished,
        drive(start_view(region), pages + extra).pages == pages.len(),
        drive(start_view(region), pages + extra).endpoints == first_occurrences(page_items(pages)),
        unique_ids(drive(start_view(region), pages + extra).endpoints),
{
    lemma_drive_until_missing(start_view(region), pages, extra);
    lemma_merge_keeps_unique(Seq::empty(), page_items(pages));
}

} // verus!
