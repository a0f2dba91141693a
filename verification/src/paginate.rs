//! The pagination engine: page metadata computed from a request and an item
//! count, the navigation links that go with it, and the response envelope
//! that carries both next to the page's items.

use vstd::prelude::*;
use vstd::string::*;

use crate::decimal::{
    decimal,
    is_digit_char,
    lemma_decimal_injective,
    lemma_decimal_shape,
    push_decimal,
};
use crate::errors::ApiError;

verus! {

/// Page size used when the request names none, or none that is positive.
pub const DEFAULT_PER_PAGE: i64 = 10;

/// The page and page size that a client asked for. Either may be missing,
/// and either may be zero or negative.
#[derive(Clone, Copy, Debug, PartialEq, Eq)]
pub struct PaginationRequest {
    pub page: Option<i64>,
    pub per_page: Option<i64>,
}

/// Where a page lies in a collection of `total` items.
#[derive(Clone, Copy, Debug, PartialEq, Eq)]
pub struct Pagination {
    pub offset: i64,
    pub page: i64,
    pub per_page: i64,
    pub total: i64,
    pub total_pages: i64,
}

/// Navigation links of one page: the collection's own address, and the
/// addresses of the first, last, previous and next page.
#[derive(Clone, Debug, PartialEq, Eq)]
pub struct Links {
    base: String,
    first: String,
    last: String,
    prev: Option<String>,
    next: Option<String>,
}

/// What a `Links` value holds, as text.
pub struct LinksView {
    pub base: Seq<char>,
    pub first: Seq<char>,
    pub last: Seq<char>,
    pub prev: Option<Seq<char>>,
    pub next: Option<Seq<char>>,
}

/// The envelope of one page: its links, its metadata and its items. The
/// items are carried along untouched, whatever they are.
#[derive(Clone, Debug)]
pub struct PaginationResponse<T> {
    pub links: Links,
    pub pagination: Pagination,
    pub data: T,
}

/// The page that a request stands for: the requested one if it is at least
/// 1, else the first.
pub open spec fn effective_page(page: Option<i64>) -> int {
    match page {
        Some(p) => if p >= 1 {
            p as int
        } else {
            1
        },
        None => 1,
    }
}

/// The page size that a request stands for: the requested one if it is at
/// least 1, else the default.
pub open spec fn effective_per_page(per_page: Option<i64>) -> int {
    match per_page {
        Some(n) => if n >= 1 {
            n as int
        } else {
            DEFAULT_PER_PAGE as int
        },
        None => DEFAULT_PER_PAGE as int,
    }
}

/// Number of pages of `per_page` items that `total` items fill, the last one
/// possibly in part: `total / per_page` rounded up. The default page size is
/// written out as a number: the quotient is the same, and the solver, which
/// divides by a number but not by a variable, then finds it by itself.
pub open spec fn page_count(total: int, per_page: int) -> int
    recommends
        per_page > 0,
{
    if per_page == 10 {
        (total + 9) / 10
    } else {
        (total + per_page - 1) / per_page
    }
}

/// Position of the first item of `page` among all items, counted from zero:
/// `(page - 1) * per_page`, with the default page size written out as a
/// number for the solver's sake, as in `page_count`.
pub open spec fn page_offset(page: int, per_page: int) -> int {
    if per_page == 10 {
        (page - 1) * 10
    } else {
        (page - 1) * per_page
    }
}

/// Whether the offset of the requested page can be held in an `i64`. The
/// first alternative says nothing that the second does not: it is there for
/// callers with small numbers, who then have no product to reason about.
pub open spec fn offset_fits(page: Option<i64>, per_page: Option<i64>) -> bool {
    ||| effective_page(page) <= 0x8000_0000 && effective_per_page(per_page) <= 0x8000_0000
    ||| page_offset(effective_page(page), effective_per_page(per_page)) <= i64::MAX
}

impl Pagination {
    /// The metadata is consistent: a positive page and page size, a count
    /// that is not negative, and the page count and offset that follow from
    /// them.
    pub open spec fn wf(&self) -> bool {
        &&& self.page >= 1
        &&& self.per_page >= 1
        &&& self.total >= 0
        &&& self.total_pages == page_count(self.total as int, self.per_page as int)
        &&& self.offset == page_offset(self.page as int, self.per_page as int)
    }

    /// The metadata is that of the requested page in a collection of `total`
    /// items.
    pub open spec fn answers(&self, page: Option<i64>, per_page: Option<i64>, total: i64) -> bool {
        &&& self.page == effective_page(page)
        &&& self.per_page == effective_per_page(per_page)
        &&& self.total == total
        &&& self.total_pages == page_count(total as int, effective_per_page(per_page))
        &&& self.offset == page_offset(effective_page(page), effective_per_page(per_page))
    }

    /// The page that the `last` link names: the last page, or the first
    /// where there is no page at all.
    pub open spec fn last_page(&self) -> int {
        if self.total_pages >= 1 {
            self.total_pages as int
        } else {
            1
        }
    }

    /// The page that the `prev` link names, if this page has one before it:
    /// the page before this one, or the last page where this one lies past
    /// the end.
    pub open spec fn prev_page(&self) -> Option<int> {
        if self.page > 1 {
            Some(vstd::math::min(self.page - 1, self.total_pages as int))
        } else {
            None
        }
    }

    /// The page that the `next` link names, if this page has one after it.
    pub open spec fn next_page(&self) -> Option<int> {
        if self.page < self.total_pages {
            Some(self.page + 1)
        } else {
            None
        }
    }
}

/// Address of one page of the collection at `base`.
pub open spec fn url_text(base: Seq<char>, page: int, per_page: int) -> Seq<char> {
    base + "?page="@ + decimal(page) + "&per_page="@ + decimal(per_page)
}

/// Address of a page that may not exist.
pub open spec fn optional_url_text(base: Seq<char>, page: Option<int>, per_page: int) -> Option<
    Seq<char>,
> {
    match page {
        Some(p) => Some(url_text(base, p, per_page)),
        None => None,
    }
}

/// The links that belong to `pagination` for the collection at `base`.
pub open spec fn links_of(pagination: Pagination, base: Seq<char>) -> LinksView {
    LinksView {
        base,
        first: url_text(base, 1, pagination.per_page as int),
        last: url_text(base, pagination.last_page(), pagination.per_page as int),
        prev: optional_url_text(base, pagination.prev_page(), pagination.per_page as int),
        next: optional_url_text(base, pagination.next_page(), pagination.per_page as int),
    }
}

/// The text of a link that may be missing.
pub open spec fn optional_text(link: Option<String>) -> Option<Seq<char>> {
    match link {
        Some(s) => Some(s@),
        None => None,
    }
}

impl View for Links {
    type V = LinksView;

    closed spec fn view(&self) -> LinksView {
        LinksView {
            base: self.base@,
            first: self.first@,
            last: self.last@,
            prev: optional_text(self.prev),
            next: optional_text(self.next),
        }
    }
}

/// `page_count` and `page_offset` are the two formulas, whatever the page
/// size.
pub proof fn lemma_count_and_offset_formulas(total: int, page: int, per_page: int)
    ensures
        page_count(total, per_page) == (total + per_page - 1) / per_page,
        page_offset(page, per_page) == (page - 1) * per_page,
{
}

/// `page_count` is the ceiling of `total / per_page`: the one number of pages
/// that holds all items while one page fewer would not. No items fill no
/// page, and only they.
pub proof fn lemma_page_count_is_ceiling(total: int, per_page: int)
    requires
        total >= 0,
        per_page > 0,
    ensures
        (page_count(total, per_page) - 1) * per_page < total <= page_count(total, per_page)
            * per_page,
        page_count(total, per_page) >= 0,
        page_count(total, per_page) == 0 <==> total == 0,
{
    let q = (total + per_page - 1) / per_page;
    assert((q - 1) * per_page < total <= q * per_page && q >= 0 && (q == 0 <==> total == 0))
        by (nonlinear_arith)
        requires
            total >= 0,
            per_page > 0,
            q == (total + per_page - 1) / per_page,
    ;
}

/// The page that a request stands for.
fn clamp_page(page: Option<i64>) -> (clamped: i64)
    ensures
        clamped == effective_page(page),
{
    match page {
        Some(p) => if p >= 1 {
            p
        } else {
            1
        },
        None => 1,
    }
}

/// The page size that a request stands for.
fn clamp_per_page(per_page: Option<i64>) -> (clamped: i64)
    ensures
        clamped == effective_per_page(per_page),
{
    match per_page {
        Some(n) => if n >= 1 {
            n
        } else {
            DEFAULT_PER_PAGE
        },
        None => DEFAULT_PER_PAGE,
    }
}

/// Page metadata for a request against a collection of `total` items. A
/// missing or non-positive page becomes the first page, a missing or
/// non-positive page size becomes `DEFAULT_PER_PAGE`. The page may lie past
/// the last one; its offset is then past the last item.
pub fn get_pagination(page: Option<i64>, per_page: Option<i64>, total: i64) -> (pagination:
    Pagination)
    requires
        total >= 0,
        offset_fits(page, per_page),
    ensures
        pagination.page == effective_page(page),
        pagination.per_page == effective_per_page(per_page),
        pagination.total == total,
        pagination.total_pages == page_count(total as int, pagination.per_page as int),
        pagination.total_pages == (total + pagination.per_page - 1) / (pagination.per_page as int),
        (pagination.total_pages - 1) * pagination.per_page < total <= pagination.total_pages
            * pagination.per_page,
        pagination.offset == page_offset(pagination.page as int, pagination.per_page as int),
        pagination.offset == (pagination.page - 1) * pagination.per_page,
        pagination.total_pages == 0 <==> total == 0,
        pagination.answers(page, per_page, total),
        pagination.wf(),
{
    let page: i64 = clamp_page(page);
    let per_page: i64 = clamp_per_page(per_page);
    proof {
        lemma_page_count_is_ceiling(total as int, per_page as int);
        assert(0 <= (page - 1) * per_page <= i64::MAX) by (nonlinear_arith)
            requires
                page >= 1,
                per_page >= 1,
                (page <= 0x8000_0000 && per_page <= 0x8000_0000) || (page - 1) * per_page
                    <= i64::MAX,
        ;
    }
    let total_pages: i64 = if total == 0 {
        0
    } else {
        assert((total - 1) / (per_page as int) + 1 == page_count(total as int, per_page as int)
            && 0 <= (total - 1) / (per_page as int) <= total - 1) by (nonlinear_arith)
            requires
                total >= 1,
                per_page >= 1,
        ;
        (total - 1) / per_page + 1
    };
    let offset: i64 = (page - 1) * per_page;
    Pagination { offset, page, per_page, total, total_pages }
}

/// The address of page `page` of the collection at `base`, for pages of
/// `per_page` items. `base` is taken as it is, with no escaping.
pub fn get_url(base: &String, page: i64, per_page: i64) -> (url: String)
    ensures
        url@ == url_text(base@, page as int, per_page as int),
{
    let mut url = base.clone();
    url.append("?page=");
    push_decimal(&mut url, page);
    url.append("&per_page=");
    push_decimal(&mut url, per_page);
    url
}

/// The address of the first page.
pub fn first_url(pagination: &Pagination, base: &String) -> (url: String)
    ensures
        url@ == url_text(base@, 1, pagination.per_page as int),
{
    get_url(base, 1, pagination.per_page)
}

/// The address of the last page; that of the first page where there is no
/// page at all, so that the link never names a page 0.
pub fn last_url(pagination: &Pagination, base: &String) -> (url: String)
    ensures
        url@ == url_text(base@, pagination.last_page(), pagination.per_page as int),
{
    if pagination.total_pages >= 1 {
        get_url(base, pagination.total_pages, pagination.per_page)
    } else {
        get_url(base, 1, pagination.per_page)
    }
}

/// The address of the page before this one, unless this is the first page.
/// Past the end it is the address of the last page.
pub fn prev_url(pagination: &Pagination, base: &String) -> (url: Option<String>)
    ensures
        optional_text(url) == optional_url_text(
            base@,
            pagination.prev_page(),
            pagination.per_page as int,
        ),
        url is None <==> pagination.page <= 1,
{
    if pagination.page > 1 {
        let prev_page: i64 = if pagination.page - 1 <= pagination.total_pages {
            pagination.page - 1
        } else {
            pagination.total_pages
        };
        return Some(get_url(base, prev_page, pagination.per_page));
    }
    None
}

/// The address of the page after this one, unless this is the last page or
/// lies past it.
pub fn next_url(pagination: &Pagination, base: &String) -> (url: Option<String>)
    ensures
        optional_text(url) == optional_url_text(
            base@,
            pagination.next_page(),
            pagination.per_page as int,
        ),
        url is None <==> pagination.page >= pagination.total_pages,
{
    if pagination.page < pagination.total_pages {
        let next_page: i64 = pagination.page + 1;
        return Some(get_url(base, next_page, pagination.per_page));
    }
    None
}

/// The links of `pagination` for the collection at `base`.
pub fn build_links(pagination: &Pagination, base: String) -> (links: Links)
    ensures
        links@ == links_of(*pagination, base@),
        links@.prev is None <==> pagination.page <= 1,
        links@.next is None <==> pagination.page >= pagination.total_pages,
{
    let first = first_url(pagination, &base);
    let last = last_url(pagination, &base);
    let prev = prev_url(pagination, &base);
    let next = next_url(pagination, &base);
    Links { base, first, last, prev, next }
}

impl Links {
    /// The address of the collection.
    pub fn base(&self) -> (text: &String)
        ensures
            text@ == self@.base,
    {
        &self.base
    }

    /// The address of the first page.
    pub fn first(&self) -> (text: &String)
        ensures
            text@ == self@.first,
    {
        &self.first
    }

    /// The address of the last page.
    pub fn last(&self) -> (text: &String)
        ensures
            text@ == self@.last,
    {
        &self.last
    }

    /// The address of the previous page, if there is one.
    pub fn prev(&self) -> (text: Option<&String>)
        ensures
            text is Some <==> self@.prev is Some,
            text is Some ==> text->0@ == self@.prev->0,
    {
        match &self.prev {
            Some(url) => Some(url),
            None => None,
        }
    }

    /// The address of the next page, if there is one.
    pub fn next(&self) -> (text: Option<&String>)
        ensures
            text is Some <==> self@.next is Some,
            text is Some ==> text->0@ == self@.next->0,
    {
        match &self.next {
            Some(url) => Some(url),
            None => None,
        }
    }
}

impl PaginationRequest {
    /// Page metadata for this request against a collection of `total` items,
    /// as `get_pagination` gives it. `None` where `total` is negative or the
    /// offset of the requested page is too large for an `i64`.
    pub fn resolve(&self, total: i64) -> (pagination: Option<Pagination>)
        ensures
            pagination is Some <==> total >= 0 && offset_fits(self.page, self.per_page),
            pagination is Some ==> pagination->0.answers(self.page, self.per_page, total)
                && pagination->0.wf(),
    {
        if total < 0 {
            return None;
        }
        let page: i64 = clamp_page(self.page);
        let per_page: i64 = clamp_per_page(self.per_page);
        proof {
            assert((page <= 0x8000_0000 && per_page <= 0x8000_0000) ==> (page - 1) * per_page
                <= i64::MAX) by (nonlinear_arith)
                requires
                    page >= 1,
                    per_page >= 1,
            ;
            assert((page - 1) * per_page >= 0) by (nonlinear_arith)
                requires
                    page >= 1,
                    per_page >= 1,
            ;
        }
        match (page - 1).checked_mul(per_page) {
            Some(_) => Some(get_pagination(self.page, self.per_page, total)),
            None => None,
        }
    }
}

/// Wraps one page of items in its envelope: the metadata as given, the links
/// that belong to it, and the items as given. This cannot fail; the result
/// type is that of the request handlers it is called from.
pub fn paginate<T>(pagination: Pagination, data: T, base: String) -> (response: Result<
    PaginationResponse<T>,
    ApiError,
>)
    ensures
        response is Ok,
        response->Ok_0.pagination == pagination,
        response->Ok_0.data == data,
        response->Ok_0.links@ == links_of(pagination, base@),
        response->Ok_0.links@.prev is None <==> pagination.page <= 1,
        response->Ok_0.links@.next is None <==> pagination.page >= pagination.total_pages,
{
    let links = build_links(&pagination, base);
    let response = PaginationResponse { links, pagination, data };
    Ok(response)
}

/// An address tells its page and its page size: for one collection, two
/// addresses are the same only if they name the same page of the same size.
pub proof fn lemma_url_text_injective(
    base: Seq<char>,
    page: int,
    per_page: int,
    other_page: int,
    other_per_page: int,
)
    requires
        url_text(base, page, per_page) == url_text(base, other_page, other_per_page),
    ensures
        page == other_page,
        per_page == other_per_page,
{
    reveal_strlit("?page=");
    reveal_strlit("&per_page=");
    let head = base + "?page="@;
    let mark = "&per_page="@;
    let p = decimal(page);
    let q = decimal(per_page);
    let other_p = decimal(other_page);
    let other_q = decimal(other_per_page);
    let url = url_text(base, page, per_page);
    let other_url = url_text(base, other_page, other_per_page);
    lemma_decimal_shape(page);
    lemma_decimal_shape(other_page);
    assert(mark[0] == '&');
    assert(!is_digit_char('&'));
    assert(url =~= head + p + mark + q);
    assert(other_url =~= head + other_p + mark + other_q);
    if p.len() < other_p.len() {
        let at = (head.len() + p.len()) as int;
        assert(url[at] == mark[0]);
        assert(other_url[at] == other_p[p.len() as int]);
        assert(false);
    }
    if other_p.len() < p.len() {
        let at = (head.len() + other_p.len()) as int;
        assert(other_url[at] == mark[0]);
        assert(url[at] == p[other_p.len() as int]);
        assert(false);
    }
    let start = head.len() as int;
    let middle = start + p.len();
    let rest = middle + mark.len();
    assert(p =~= url.subrange(start, middle));
    assert(other_p =~= other_url.subrange(start, middle));
    lemma_decimal_injective(page, other_page);
    assert(q =~= url.subrange(rest, url.len() as int));
    assert(other_q =~= other_url.subrange(rest, other_url.len() as int));
    lemma_decimal_injective(per_page, other_per_page);
}

/// The `prev` link is missing on the first page and only there; the `next`
/// link is missing on the last page and past it, and only there.
pub proof fn lemma_prev_next_presence(pagination: Pagination, base: Seq<char>)
    ensures
        links_of(pagination, base).prev is None <==> pagination.page <= 1,
        links_of(pagination, base).next is None <==> pagination.page >= pagination.total_pages,
{
}

/// The `first` link names page 1. The `last` link names the last page where
/// there is one, and is the `first` link where there is none.
pub proof fn lemma_first_last_pages(pagination: Pagination, base: Seq<char>)
    ensures
        links_of(pagination, base).first == url_text(base, 1, pagination.per_page as int),
        pagination.total_pages >= 1 ==> links_of(pagination, base).last == url_text(
            base,
            pagination.total_pages as int,
            pagination.per_page as int,
        ),
        pagination.total_pages < 1 ==> links_of(pagination, base).last == links_of(
            pagination,
            base,
        ).first,
{
}

/// The `first` link names no page but page 1, and the `last` link no page
/// but the last one, or page 1 where there is none: never a page 0.
pub proof fn lemma_first_last_name_one_page(
    pagination: Pagination,
    base: Seq<char>,
    page: int,
    per_page: int,
)
    ensures
        links_of(pagination, base).first == url_text(base, page, per_page) ==> page == 1
            && per_page == pagination.per_page,
        links_of(pagination, base).last == url_text(base, page, per_page) ==> page >= 1 && page
            == pagination.last_page() && per_page == pagination.per_page,
{
    if links_of(pagination, base).first == url_text(base, page, per_page) {
        lemma_url_text_injective(base, 1, pagination.per_page as int, page, per_page);
    }
    if links_of(pagination, base).last == url_text(base, page, per_page) {
        lemma_url_text_injective(
            base,
            pagination.last_page(),
            pagination.per_page as int,
            page,
            per_page,
        );
    }
}

/// Where the `prev` link is there, it names the page before this one, or the
/// last page if this one lies past the end; where the `next` link is there,
/// it names the page after this one.
pub proof fn lemma_prev_next_pages(pagination: Pagination, base: Seq<char>)
    ensures
        1 < pagination.page <= pagination.total_pages + 1 ==> links_of(pagination, base).prev
            == Some(url_text(base, pagination.page - 1, pagination.per_page as int)),
        pagination.page > 1 && pagination.page > pagination.total_pages + 1 ==> links_of(
            pagination,
            base,
        ).prev == Some(url_text(base, pagination.total_pages as int, pagination.per_page as int)),
        pagination.page < pagination.total_pages ==> links_of(pagination, base).next == Some(
            url_text(base, pagination.page + 1, pagination.per_page as int),
        ),
{
}

/// Where the collection has a page at all, the links name pages that exist:
/// `prev` an earlier one, `next` the one that follows. (Of an empty
/// collection, a page past the first has a `prev` link that names page 0.)
pub proof fn lemma_prev_next_in_range(pagination: Pagination)
    requires
        pagination.page >= 1,
        pagination.total_pages >= 1,
    ensures
        pagination.prev_page() matches Some(p) ==> 1 <= p <= pagination.total_pages && p
            < pagination.page,
        pagination.next_page() matches Some(n) ==> 1 < n <= pagination.total_pages && n
            == pagination.page + 1,
        1 <= pagination.last_page() == pagination.total_pages,
{
}

/// Two calls of `get_pagination` on the same request and count return the
/// same metadata.
pub proof fn lemma_get_pagination_repeats(
    page: Option<i64>,
    per_page: Option<i64>,
    total: i64,
    once: Pagination,
    again: Pagination,
)
    requires
        call_ensures(get_pagination, (page, per_page, total), once),
        call_ensures(get_pagination, (page, per_page, total), again),
    ensures
        once == again,
{
}

/// Two calls of `build_links` on the same metadata and address return links
/// with the same text.
pub proof fn lemma_build_links_repeats(
    pagination: Pagination,
    base: String,
    once: Links,
    again: Links,
)
    requires
        call_ensures(build_links, (&pagination, base), once),
        call_ensures(build_links, (&pagination, base), again),
    ensures
        once@ == again@,
{
}

/// Two calls of `paginate` on the same metadata, items and address return
/// the same envelope: both succeed, with the same metadata, the same items
/// and links with the same text.
pub proof fn lemma_paginate_repeats<T>(
    pagination: Pagination,
    data: T,
    base: String,
    once: Result<PaginationResponse<T>, ApiError>,
    again: Result<PaginationResponse<T>, ApiError>,
)
    requires
        call_ensures(paginate::<T>, (pagination, data, base), once),
        call_ensures(paginate::<T>, (pagination, data, base), again),
    ensures
        once is Ok,
        again is Ok,
        once->Ok_0.pagination == again->Ok_0.pagination,
        once->Ok_0.data == again->Ok_0.data,
        once->Ok_0.links@ == again->Ok_0.links@,
{
}

} // verus!
