//! Searching products by description, five per page.

use vstd::prelude::*;
use crate::utils::text::{push_char, text};

verus! {

/// The path parameters of a search: the page (counted from 1) and the text
/// searched for.
pub struct Params {
    pub page: i32,
    pub key: String,
}

/// Products per page.
pub const PER_PAGE: i32 = 5;

/// The `LIKE` pattern of a search: the key anywhere in the description.
pub fn search_pattern(key: &str) -> (r: String)
    ensures
        r@ == seq!['%'] + key@ + seq!['%'],
{
    let mut p = String::new();
    push_char(&mut p, '%');
    p.append(key);
    push_char(&mut p, '%');
    p
}

/// Whether the offset of a page fits an `i32`.
pub open spec fn page_in_range(page: i32) -> bool {
    i32::MIN <= (page - 1) * PER_PAGE <= i32::MAX
}

/// The number of matching products before a page: `(page - 1) * 5`.
pub fn page_offset(page: i32) -> (r: i32)
    requires
        page_in_range(page),
    ensures
        r == (page - 1) * PER_PAGE,
{
    (page - 1) * PER_PAGE
}

/// The number of pages for `count` matching products: `count / 5` rounded
/// up, none for a count of zero or less, at most `u32::MAX`.
pub open spec fn page_count(count: int) -> int {
    if count <= 0 {
        0
    } else if (count + PER_PAGE - 1) / (PER_PAGE as int) > u32::MAX {
        u32::MAX as int
    } else {
        (count + PER_PAGE - 1) / (PER_PAGE as int)
    }
}

/// The number of pages for `count` matching products.
pub fn total_pages(count: i64) -> (r: u32)
    ensures
        r == page_count(count as int),
{
    if count <= 0 {
        return 0;
    }
    let per_page: i64 = PER_PAGE as i64;
    let whole: i64 = count / per_page;
    let pages: i64 = if count % per_page != 0 { whole + 1 } else { whole };
    assert(pages == (count + PER_PAGE - 1) / (PER_PAGE as int));
    if pages > u32::MAX as i64 {
        u32::MAX
    } else {
        pages as u32
    }
}

/// What a search is answered.
pub enum SearchReply<P> {
    /// No product on the page.
    NotFound,
    /// The page, the number of pages, the number of matching products and the
    /// products of the page.
    Found { page: i32, totpage: u32, totalrecords: i64, products: Vec<P> },
}

impl<P> SearchReply<P> {
    /// The text of a reply without products.
    pub open spec fn message_text(self) -> Seq<char> {
        match self {
            SearchReply::NotFound => "Product(s) not found.."@,
            SearchReply::Found { .. } => Seq::empty(),
        }
    }

    /// The HTTP status: 404 Not Found without products, 200 with them.
    pub fn status(&self) -> (r: u16)
        ensures
            self is NotFound ==> r == 404,
            self is Found ==> r == 200,
    {
        match self {
            SearchReply::NotFound => 404,
            SearchReply::Found { .. } => 200,
        }
    }

    /// The text of a reply without products (empty for a page of products).
    pub fn message(&self) -> (r: String)
        ensures
            r@ == self.message_text(),
    {
        match self {
            SearchReply::NotFound => text("Product(s) not found.."),
            SearchReply::Found { .. } => String::new(),
        }
    }
}

/// The answer to a search for `page`, given the number of matching products
/// and the products read for the page.
pub fn search_reply<P>(page: i32, count: i64, products: Vec<P>) -> (r: SearchReply<P>)
    ensures
        products@.len() == 0 ==> r is NotFound,
        products@.len() > 0 ==> r == (SearchReply::Found {
            page,
            totpage: page_count(count as int) as u32,
            totalrecords: count,
            products,
        }),
{
    if products.len() == 0 {
        return SearchReply::NotFound;
    }
    SearchReply::Found { page, totpage: total_pages(count), totalrecords: count, products }
}

/// Where a search stands.
pub enum SearchState {
    /// The matching products are being counted.
    Counting { page: i32, pattern: String },
    /// The products of the page are being read.
    Reading { page: i32, count: i64 },
    /// The request has been answered.
    Done,
}

/// What the database reports back to a search.
pub enum SearchEvent<P> {
    /// The number of matching products.
    Counted(i64),
    /// The products of the page.
    Read(Vec<P>),
}

/// What a search asks the server to do next.
pub enum SearchAction<P> {
    /// Count the products whose description matches this pattern.
    Count(String),
    /// Read the matching products from `offset` on, at most `limit` of them.
    Read { pattern: String, offset: i32, limit: i32 },
    /// The page's offset does not fit an `i32`; the request cannot be served.
    Fail,
    /// Answer the request.
    Answer(SearchReply<P>),
}

/// A search begins by counting the products whose description contains the key.
pub fn search_start<P>(params: Params) -> (r: (SearchState, SearchAction<P>))
    ensures
        r.1 matches SearchAction::Count(pattern) && pattern@ == seq!['%'] + params.key@ + seq!['%'],
        r.0 matches SearchState::Counting { page, pattern } && page == params.page
            && pattern@ == seq!['%'] + params.key@ + seq!['%'],
{
    let pattern = search_pattern(params.key.as_str());
    let counted = pattern.clone();
    (SearchState::Counting { page: params.page, pattern }, SearchAction::Count(counted))
}

/// The next state and action of a search, given what the database reports.
pub fn search_step<P>(state: SearchState, event: SearchEvent<P>) -> (r: (SearchState, SearchAction<P>))
    requires
        state is Counting ==> event is Counted,
        state is Reading ==> event is Read,
        !(state is Done),
    ensures
        match state {
            SearchState::Counting { page, pattern } => match event {
                SearchEvent::Counted(count) => if page_in_range(page) {
                    r.0 == (SearchState::Reading { page, count }) && r.1 == (SearchAction::<P>::Read {
                        pattern,
                        offset: ((page - 1) * PER_PAGE) as i32,
                        limit: PER_PAGE,
                    })
                } else {
                    r.0 == SearchState::Done && r.1 is Fail
                },
                _ => false,
            },
            SearchState::Reading { page, count } => match event {
                SearchEvent::Read(products) => r.0 == SearchState::Done && if products@.len() == 0 {
                    r.1 == SearchAction::Answer(SearchReply::<P>::NotFound)
                } else {
                    r.1 == SearchAction::Answer((SearchReply::Found {
                        page,
                        totpage: page_count(count as int) as u32,
                        totalrecords: count,
                        products,
                    }))
                },
                _ => false,
            },
            SearchState::Done => false,
        },
{
    match state {
        SearchState::Counting { page, pattern } => match event {
            SearchEvent::Counted(count) => {
                if page == i32::MIN || page - 1 < i32::MIN / PER_PAGE || page - 1 > i32::MAX / PER_PAGE {
                    return (SearchState::Done, SearchAction::Fail);
                }
                let offset: i32 = page_offset(page);
                (SearchState::Reading { page, count }, SearchAction::Read { pattern, offset, limit: PER_PAGE })
            },
            SearchEvent::Read(_) => (SearchState::Done, SearchAction::Fail),
        },
        SearchState::Reading { page, count } => match event {
            SearchEvent::Read(products) => (SearchState::Done, SearchAction::Answer(search_reply(page, count, products))),
            SearchEvent::Counted(_) => (SearchState::Done, SearchAction::Fail),
        },
        SearchState::Done => (SearchState::Done, SearchAction::Fail),
    }
}

} // verus!
