//! Paging parameters of a request and the envelope of a paged response.

use crate::amount::Amount;
use crate::wire::{
    decoded_items, fields_view, integer, integer_field, integer_field_or, integer_of, integer_or,
    is_first, items_from_wire, items_view, lemma_lookup_first, plain_result_view, values_view,
    FieldView, WireError, WireErrorView, WireField, WireRead, WireValueView,
};
use vstd::prelude::*;
use vstd::string::StringExecFns;

verus! {

/// The least integer `n` with `n * size >= total`, for a positive `size`.
pub open spec fn ceil_div(total: int, size: int) -> int
    recommends
        size > 0,
{
    if total % size == 0 {
        total / size
    } else {
        total / size + 1
    }
}

/// The number of pages that `total_elements` items fill at `size` items a
/// page; zero where the page length is not positive.
pub open spec fn page_count(total_elements: int, size: int) -> int {
    if size > 0 {
        ceil_div(total_elements, size)
    } else {
        0
    }
}

/// `ceil_div` is the ceiling of the quotient: it is the one integer `n` with
/// `(n - 1) * size < total <= n * size`.
pub proof fn lemma_ceil_div_is_ceiling(total: int, size: int, n: int)
    requires
        size > 0,
    ensures
        (ceil_div(total, size) - 1) * size < total <= ceil_div(total, size) * size,
        (n - 1) * size < total <= n * size ==> n == ceil_div(total, size),
{
    let q = total / size;
    let r = total % size;
    assert(total == q * size + r && 0 <= r < size) by (nonlinear_arith)
        requires
            size > 0,
            q == total / size,
            r == total % size,
    ;
    let c = ceil_div(total, size);
    assert((c - 1) * size < total <= c * size) by (nonlinear_arith)
        requires
            size > 0,
            total == q * size + r,
            0 <= r < size,
            c == (if r == 0 { q } else { q + 1 }),
    ;
    if (n - 1) * size < total <= n * size {
        assert(n == c) by (nonlinear_arith)
            requires
                size > 0,
                (n - 1) * size < total <= n * size,
                (c - 1) * size < total <= c * size,
        ;
    }
}

/// For a count that is not negative, the ceiling is the quotient of the
/// count raised by one less than the page length.
pub proof fn law_ceil_div_by_raising(total: int, size: int)
    requires
        total >= 0,
        size > 0,
    ensures
        ceil_div(total, size) == (total + size - 1) / size,
{
    let n = (total + size - 1) / size;
    let r = (total + size - 1) % size;
    assert(total + size - 1 == n * size + r && 0 <= r < size) by (nonlinear_arith)
        requires
            size > 0,
            n == (total + size - 1) / size,
            r == (total + size - 1) % size,
    ;
    assert((n - 1) * size < total <= n * size) by (nonlinear_arith)
        requires
            size > 0,
            total + size - 1 == n * size + r,
            0 <= r < size,
    ;
    lemma_ceil_div_is_ceiling(total, size, n);
}

/// Request-side paging parameters: a zero-based page and a page length.
#[derive(Debug, Clone, Copy, PartialEq, Eq, Structural)]
pub struct Pagination {
    pub page: i64,
    pub size: i64,
}

/// The page that a request names when it names none.
pub fn default_page() -> (r: i64)
    ensures
        r == 0,
{
    0
}

/// The page length of a request that names none.
pub fn default_per_page() -> (r: i64)
    ensures
        r == 100,
{
    100
}

impl Pagination {
    /// The index of the first item of the page, `page * size`.
    pub open spec fn spec_offset(&self) -> int {
        self.page * self.size
    }

    /// The index of the first item of the page. The product has to fit the
    /// machine integer.
    pub fn offset(&self) -> (r: i64)
        requires
            i64::MIN <= self.page * self.size <= i64::MAX,
        ensures
            r == self.page * self.size,
            r == self.spec_offset(),
    {
        self.page * self.size
    }

    /// The first page, at the default page length.
    pub fn default() -> (r: Self)
        ensures
            r.page == 0,
            r.size == 100,
    {
        Pagination { page: default_page(), size: default_per_page() }
    }
}

/// Page metadata of a paged response.
#[derive(Debug, Clone, Copy, PartialEq, Eq, Structural)]
pub struct PageInfo {
    pub size: i64,
    pub number: i64,
    pub total_elements: i64,
    pub total_pages: i64,
}

/// One page of results with the metadata that describes it.
#[derive(Debug)]
pub struct PagedResponse<T> {
    pub content: Vec<T>,
    pub page: PageInfo,
}

/// The number of pages as a machine integer, for every `total_elements`.
pub fn total_pages_of(total_elements: i64, size: i64) -> (r: i64)
    ensures
        r == page_count(total_elements as int, size as int),
        size > 0 ==> (r - 1) * size < total_elements <= r * size,
        size <= 0 ==> r == 0,
{
    if size > 0 {
        proof {
            lemma_ceil_div_is_ceiling(total_elements as int, size as int, 0);
        }
        if total_elements >= 0 {
            let q: i64 = total_elements / size;
            let rem: i64 = total_elements % size;
            assert(q <= total_elements && (q == total_elements ==> rem == 0)) by (nonlinear_arith)
                requires
                    size > 0,
                    total_elements >= 0,
                    q == total_elements as int / size as int,
                    rem == total_elements as int % size as int,
            ;
            if rem > 0 {
                q + 1
            } else {
                q
            }
        } else {
            // With `m = -(total_elements + 1)`, the ceiling is `-floor((m + 1) / size)`.
            let m: i64 = -(total_elements + 1);
            let q: i64 = m / size;
            let rem: i64 = m % size;
            let r: i64 = if rem == size - 1 {
                -q - 1
            } else {
                -q
            };
            assert((r - 1) * size < total_elements <= r * size) by (nonlinear_arith)
                requires
                    size > 0,
                    m >= 0,
                    total_elements == -(m + 1),
                    q == m as int / size as int,
                    rem == m as int % size as int,
                    r == (if rem == size - 1 { -q - 1 } else { -q as int }),
            ;
            proof {
                lemma_ceil_div_is_ceiling(total_elements as int, size as int, r as int);
            }
            r
        }
    } else {
        0
    }
}

impl<T> PagedResponse<T> {
    /// The metadata agrees with itself: the number of pages is the one that
    /// the number of elements fills at the page length.
    pub open spec fn wf(&self) -> bool {
        self.page.total_pages == page_count(
            self.page.total_elements as int,
            self.page.size as int,
        )
    }

    /// Wraps one page of results. `number` repeats the requested page as it
    /// was asked for, whether or not that page exists.
    pub fn new(content: Vec<T>, pagination: &Pagination, total_elements: i64) -> (r: Self)
        ensures
            r.wf(),
            r.content == content,
            r.page.size == pagination.size,
            r.page.number == pagination.page,
            r.page.total_elements == total_elements,
            r.page.total_pages == page_count(total_elements as int, pagination.size as int),
            pagination.size > 0 ==> (r.page.total_pages - 1) * pagination.size < total_elements
                <= r.page.total_pages * pagination.size,
            pagination.size <= 0 ==> r.page.total_pages == 0,
    {
        let total_pages = total_pages_of(total_elements, pagination.size);
        PagedResponse {
            content,
            page: PageInfo {
                size: pagination.size,
                number: pagination.page,
                total_elements,
                total_pages,
            },
        }
    }
}

/// A whole number as it stands in a payload.
pub open spec fn integer_value(n: i64) -> WireValueView {
    WireValueView::Number(Amount { mantissa: n as i128, scale: 0 })
}

impl Pagination {
    /// The query parameters of the page: `page`, then `size`.
    pub open spec fn spec_query(&self) -> Seq<FieldView> {
        seq![("page"@, integer_value(self.page)), ("size"@, integer_value(self.size))]
    }

    /// The query parameters that ask for the page.
    pub fn to_query(&self) -> (r: Vec<WireField>)
        ensures
            fields_view(r@) == self.spec_query(),
    {
        let mut fields: Vec<WireField> = Vec::new();
        fields.push(integer("page", self.page));
        fields.push(integer("size", self.size));
        assert(fields_view(fields@) =~= self.spec_query());
        fields
    }
}

/// The paging parameters that a query holds: the page under `page`, or the
/// first page where it is left out; the page length under `size`, or one
/// hundred where it is left out. The page is read first, and the first
/// parameter that fails gives the error.
pub open spec fn decoded_pagination(fields: Seq<FieldView>) -> Result<Pagination, WireErrorView> {
    match integer_or(fields, "page"@, 0) {
        Err(e) => Err(e),
        Ok(page) => match integer_or(fields, "size"@, 100) {
            Err(e) => Err(e),
            Ok(size) => Ok(Pagination { page, size }),
        },
    }
}

impl Pagination {
    /// Reads paging parameters from a query, with the defaults for those
    /// left out.
    pub fn from_wire(fields: &Vec<WireField>) -> (r: Result<Pagination, WireError>)
        ensures
            plain_result_view(r) == decoded_pagination(fields_view(fields@)),
    {
        let page = match integer_field_or(fields, "page", default_page()) {
            Ok(n) => n,
            Err(e) => { return Err(e); },
        };
        let size = match integer_field_or(fields, "size", default_per_page()) {
            Ok(n) => n,
            Err(e) => { return Err(e); },
        };
        Ok(Pagination { page, size })
    }
}

/// Paging parameters that are written as a query and read again are what
/// they were, and a query without parameters asks for the first page of
/// one hundred.
pub proof fn law_pagination_round_trip(p: Pagination)
    ensures
        decoded_pagination(p.spec_query()) == Ok::<Pagination, WireErrorView>(p),
        decoded_pagination(Seq::empty()) == Ok::<Pagination, WireErrorView>(
            Pagination { page: 0, size: 100 },
        ),
{
    reveal_strlit("page");
    reveal_strlit("size");
    assert("page"@[0] == 'p');
    assert("size"@[0] == 's');
    let fields = p.spec_query();
    assert(is_first(fields, "page"@, 0));
    assert(is_first(fields, "size"@, 1));
    lemma_lookup_first(fields, "page"@, 0);
    lemma_lookup_first(fields, "size"@, 1);
}

/// The fields that page metadata is sent as. The totals go under the names
/// `totalElements` and `totalPages`.
pub open spec fn encoded_page_info(p: PageInfo) -> Seq<FieldView> {
    seq![
        ("size"@, integer_value(p.size)),
        ("number"@, integer_value(p.number)),
        ("totalElements"@, integer_value(p.total_elements)),
        ("totalPages"@, integer_value(p.total_pages)),
    ]
}

/// The page metadata that a payload holds. The fields are read in the order
/// `size`, `number`, `totalElements`, `totalPages`, and the first that fails
/// gives the error.
pub open spec fn decoded_page_info(fields: Seq<FieldView>) -> Result<PageInfo, WireErrorView> {
    match integer_of(fields, "size"@) {
        Err(e) => Err(e),
        Ok(size) => match integer_of(fields, "number"@) {
            Err(e) => Err(e),
            Ok(number) => match integer_of(fields, "totalElements"@) {
                Err(e) => Err(e),
                Ok(total_elements) => match integer_of(fields, "totalPages"@) {
                    Err(e) => Err(e),
                    Ok(total_pages) => Ok(PageInfo { size, number, total_elements, total_pages }),
                },
            },
        },
    }
}

impl PageInfo {
    /// The payload that carries the page metadata.
    pub fn to_wire(&self) -> (r: Vec<WireField>)
        ensures
            fields_view(r@) == encoded_page_info(*self),
    {
        let mut fields: Vec<WireField> = Vec::new();
        fields.push(integer("size", self.size));
        fields.push(integer("number", self.number));
        fields.push(integer("totalElements", self.total_elements));
        fields.push(integer("totalPages", self.total_pages));
        assert(fields_view(fields@) =~= encoded_page_info(*self));
        fields
    }

    /// Reads page metadata from a payload.
    pub fn from_wire(fields: &Vec<WireField>) -> (r: Result<PageInfo, WireError>)
        ensures
            plain_result_view(r) == decoded_page_info(fields_view(fields@)),
    {
        let size = match integer_field(fields, "size") {
            Ok(n) => n,
            Err(e) => { return Err(e); },
        };
        let number = match integer_field(fields, "number") {
            Ok(n) => n,
            Err(e) => { return Err(e); },
        };
        let total_elements = match integer_field(fields, "totalElements") {
            Ok(n) => n,
            Err(e) => { return Err(e); },
        };
        let total_pages = match integer_field(fields, "totalPages") {
            Ok(n) => n,
            Err(e) => { return Err(e); },
        };
        Ok(PageInfo { size, number, total_elements, total_pages })
    }
}

/// Page metadata that is encoded and decoded again is what it was.
pub proof fn law_page_info_round_trip(p: PageInfo)
    ensures
        decoded_page_info(encoded_page_info(p)) == Ok::<PageInfo, WireErrorView>(p),
{
    reveal_strlit("size");
    reveal_strlit("number");
    reveal_strlit("totalElements");
    reveal_strlit("totalPages");
    assert("size"@.len() == 4);
    assert("number"@.len() == 6);
    assert("totalElements"@.len() == 13);
    assert("totalPages"@.len() == 10);
    let fields = encoded_page_info(p);
    assert(is_first(fields, "size"@, 0));
    assert(is_first(fields, "number"@, 1));
    assert(is_first(fields, "totalElements"@, 2));
    assert(is_first(fields, "totalPages"@, 3));
    lemma_lookup_first(fields, "size"@, 0);
    lemma_lookup_first(fields, "number"@, 1);
    lemma_lookup_first(fields, "totalElements"@, 2);
    lemma_lookup_first(fields, "totalPages"@, 3);
}

/// The body of a reply that holds one page: the payloads of its items,
/// under `content`, and of its metadata, under `page`, each where the body
/// has it.
#[derive(Debug)]
pub struct PageBody {
    pub content: Option<Vec<Vec<WireField>>>,
    pub page: Option<Vec<WireField>>,
}

/// What a page holds: what its items hold, and its metadata.
pub struct PageView<V> {
    pub content: Seq<V>,
    pub page: PageInfo,
}

/// The page that a body holds. A body without items fails for its
/// `content`, one without metadata for its `page`; then the items are read,
/// and the metadata last.
pub open spec fn decoded_page<T: WireRead>(body: PageBody) -> Result<PageView<T::V>, WireErrorView> {
    match body.content {
        None => Err(WireErrorView::Missing("content"@)),
        Some(items) => match body.page {
            None => Err(WireErrorView::Missing("page"@)),
            Some(page) => match decoded_items::<T>(items_view(items@)) {
                Err(e) => Err(e),
                Ok(content) => match decoded_page_info(fields_view(page@)) {
                    Err(e) => Err(e),
                    Ok(page) => Ok(PageView { content, page }),
                },
            },
        },
    }
}

/// The view of the outcome of reading a page.
pub open spec fn read_page_view<T: View>(r: Result<PagedResponse<T>, WireError>) -> Result<
    PageView<T::V>,
    WireErrorView,
> {
    match r {
        Ok(p) => Ok(PageView { content: values_view(p.content@), page: p.page }),
        Err(e) => Err(e@),
    }
}

/// Reads a page from the body of a reply. The page is as the service sent
/// it: nothing is said of whether its metadata agrees with itself.
pub fn page_from_wire<T: WireRead>(body: &PageBody) -> (r: Result<PagedResponse<T>, WireError>)
    ensures
        read_page_view(r) == decoded_page::<T>(*body),
{
    match &body.content {
        None => Err(WireError::Missing(String::from_str("content"))),
        Some(items) => match &body.page {
            None => Err(WireError::Missing(String::from_str("page"))),
            Some(page) => match items_from_wire::<T>(items) {
                Err(e) => Err(e),
                Ok(content) => match PageInfo::from_wire(page) {
                    Err(e) => Err(e),
                    Ok(page) => Ok(PagedResponse { content, page }),
                },
            },
        },
    }
}

} // verus!
