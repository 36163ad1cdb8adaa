//! The media search: its request body, and the cursor-driven pagination that
//! gathers the pages in the order the server sends them.

use vstd::prelude::*;

use crate::cursor::YearMonthDay;
use crate::text::{decimal, push_decimal, push_signed_decimal, signed_decimal};

verus! {

/// How many items each search page asks for.
pub const PAGE_SIZE: u32 = 25;

/// One page of search results, and the cursor of the next page, if any.
pub struct Album {
    pub media_items: Vec<Media>,
    pub next_page_token: Option<String>,
}

/// A media item as the search endpoint describes it.
pub struct Media {
    pub id: String,
    /// A download URL, valid while the response that carried it is.
    pub base_url: String,
    pub mime_type: String,
    pub media_metadata: MediaMetadata,
    /// The name the file was uploaded with; it may hold characters unsafe in a path.
    pub filename: String,
}

/// When a media item was created, as an ISO-8601 timestamp.
pub struct MediaMetadata {
    pub creation_time: String,
}

/// What serde_json writes for `s` as a JSON string.
pub uninterp spec fn json_string_of(s: Seq<char>) -> Seq<char>;

/// Relies on serde_json's `Display` for `Value::String`: the JSON string
/// literal of `s`, quoted and escaped.
#[verifier::external_body]
fn json_string(s: &str) -> (r: String)
    ensures
        r@ == json_string_of(s@),
{
    serde_json::Value::String(s.to_string()).to_string()
}

/// A date as a JSON object, its keys in order.
pub open spec fn date_json(d: YearMonthDay) -> Seq<char> {
    "{\"day\":"@ + decimal(d.day as nat) + ",\"month\":"@ + decimal(d.month as nat) + ",\"year\":"@
        + signed_decimal(d.year as int) + "}"@
}

/// The page-token member of a search body: absent for no token or an empty one.
pub open spec fn page_token_json(token: Option<Seq<char>>) -> Seq<char> {
    match token {
        Some(t) => if t.len() > 0 {
            ",\"pageToken\":"@ + json_string_of(t)
        } else {
            Seq::empty()
        },
        None => Seq::empty(),
    }
}

/// The body of a search request: creation-time order, one date range, the
/// page size, and the token of the page asked for; keys in order.
pub open spec fn search_json(
    start: YearMonthDay,
    end: YearMonthDay,
    page_size: u32,
    token: Option<Seq<char>>,
) -> Seq<char> {
    "{\"filters\":{\"dateFilter\":{\"ranges\":[{\"endDate\":"@ + date_json(end) + ",\"startDate\":"@
        + date_json(start) + "}]}},\"orderBy\":\"MediaMetadata.creation_time\",\"pageSize\":"@
        + decimal(page_size as nat) + page_token_json(token) + "}"@
}

/// The view of an optional string.
pub open spec fn token_view(o: Option<String>) -> Option<Seq<char>> {
    match o {
        Some(s) => Some(s@),
        None => None,
    }
}

/// Appends a date as a JSON object.
fn push_date_json(out: &mut String, d: &YearMonthDay)
    ensures
        final(out)@ == old(out)@ + date_json(*d),
{
    out.append("{\"day\":");
    push_decimal(out, d.day as u64);
    out.append(",\"month\":");
    push_decimal(out, d.month as u64);
    out.append(",\"year\":");
    push_signed_decimal(out, d.year);
    out.append("}");
    assert(out@ =~= old(out)@ + date_json(*d));
}

/// Queries the search endpoint for the media created within a date range.
pub struct MediaFetcher {
    pub base_uri: String,
    pub access_token: String,
    pub start_filter: YearMonthDay,
    pub end_filter: YearMonthDay,
}

impl MediaFetcher {
    pub fn new(
        base_uri: String,
        access_token: String,
        start_filter: YearMonthDay,
        end_filter: YearMonthDay,
    ) -> (r: MediaFetcher)
        ensures
            r.base_uri@ == base_uri@,
            r.access_token@ == access_token@,
            r.start_filter == start_filter,
            r.end_filter == end_filter,
    {
        MediaFetcher { base_uri, access_token, start_filter, end_filter }
    }

    /// The URI of the search endpoint.
    pub fn search_uri(&self) -> (r: String)
        ensures
            r@ == self.base_uri@ + "/v1/mediaItems:search"@,
    {
        let mut s = self.base_uri.clone();
        s.append("/v1/mediaItems:search");
        s
    }

    /// The value of the `Authorization` header.
    pub fn bearer_token(&self) -> (r: String)
        ensures
            r@ == "Bearer "@ + self.access_token@,
    {
        let mut s = "Bearer ".to_string();
        s.append(self.access_token.as_str());
        s
    }

    /// The body of the request for the page after `page_token`; the first
    /// page goes without one.
    pub fn search_body(&self, page_token: &Option<String>) -> (r: String)
        ensures
            r@ == search_json(self.start_filter, self.end_filter, PAGE_SIZE, token_view(*page_token)),
    {
        let mut s = "{\"filters\":{\"dateFilter\":{\"ranges\":[{\"endDate\":".to_string();
        push_date_json(&mut s, &self.end_filter);
        s.append(",\"startDate\":");
        push_date_json(&mut s, &self.start_filter);
        s.append("}]}},\"orderBy\":\"MediaMetadata.creation_time\",\"pageSize\":");
        push_decimal(&mut s, PAGE_SIZE as u64);
        let ghost before_token = s@;
        match page_token {
            Some(t) => {
                if t.unicode_len() > 0 {
                    s.append(",\"pageToken\":");
                    let quoted = json_string(t.as_str());
                    s.append(quoted.as_str());
                }
            },
            None => {},
        }
        assert(s@ =~= before_token + page_token_json(token_view(*page_token)));
        s.append("}");
        assert(s@ =~= search_json(
            self.start_filter,
            self.end_filter,
            PAGE_SIZE,
            token_view(*page_token),
        ));
        s
    }
}

/// The state of a paginated search: the token of the next page, and how many
/// items have come so far.
pub struct Pagination {
    pub next_page_token: Option<String>,
    pub limit: u32,
    pub total: usize,
}

impl Pagination {
    /// Before the first page: asks for it without a token.
    pub fn new(limit: u32) -> (r: Pagination)
        ensures
            r.next_page_token matches Some(t) && t@.len() == 0,
            r.limit == limit,
            r.total == 0,
    {
        Pagination { next_page_token: Some(String::new()), limit, total: 0 }
    }

    /// Another page is to be asked for: the last page named a next one, and
    /// fewer items than the limit have come. The count is checked between
    /// pages only, so the last page may carry the total past the limit.
    pub fn wants_more(&self) -> (r: bool)
        ensures
            r == (self.next_page_token is Some && self.total < self.limit),
    {
        self.next_page_token.is_some() && self.total < self.limit as usize
    }

    /// The token to send with the next request.
    pub fn page_token(&self) -> (r: &Option<String>)
        ensures
            *r == self.next_page_token,
    {
        &self.next_page_token
    }

    /// Takes in the page that came back and hands on its items, in the order
    /// the page has them. Its cursor becomes the next token, and its items
    /// are counted (the count stops at the largest `usize`).
    pub fn accept(&mut self, page: Album) -> (r: Vec<Media>)
        ensures
            r@ == page.media_items@,
            final(self).next_page_token == page.next_page_token,
            final(self).limit == old(self).limit,
            final(self).total == if old(self).total + page.media_items@.len() <= usize::MAX {
                old(self).total + page.media_items@.len()
            } else {
                usize::MAX as int
            },
    {
        let Album { media_items, next_page_token } = page;
        self.total = self.total.saturating_add(media_items.len());
        self.next_page_token = next_page_token;
        media_items
    }
}

/// The views of a sequence of pages.
pub open spec fn pages_view(pages: Seq<Vec<Media>>) -> Seq<Seq<Media>> {
    pages.map_values(|p: Vec<Media>| p@)
}

/// Drains pages into one sequence: the first page's items, then the second's,
/// and so on, each page in its own order.
pub fn gather(pages: Vec<Vec<Media>>) -> (r: Vec<Media>)
    ensures
        r@ == pages_view(pages@).flatten(),
{
    let mut pages = pages;
    let ghost all = pages_view(pages@).flatten();
    let mut out: Vec<Media> = Vec::new();
    while pages.len() > 0
        invariant
            out@ + pages_view(pages@).flatten() == all,
        decreases pages@.len(),
    {
        let ghost before = pages_view(pages@);
        let mut p = pages.remove(0);
        assert(before.drop_first() =~= pages_view(pages@));
        assert(before.first() == p@);
        let ghost out_before = out@;
        out.append(&mut p);
        assert(out@ + pages_view(pages@).flatten() =~= out_before + before.flatten());
    }
    assert(pages_view(pages@) =~= Seq::<Seq<Media>>::empty());
    assert(out@ =~= all);
    out
}

} // verus!
