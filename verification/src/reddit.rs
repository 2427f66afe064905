//! Listing descriptors for the listing source: community, category,
//! direction and pagination state, and the bit-exact construction of the
//! polling endpoint URL.

use std::collections::VecDeque;

use vstd::prelude::*;

use crate::content::{Post, PostView};
use crate::json::{child_int, child_int_of, child_str, child_str_of};
use crate::strutil::{dec_str, str_eq, u64_to_dec};

verus! {

/// A named community on the listing source.
pub struct Subreddit(pub String);

impl Subreddit {
    pub fn name(&self) -> (r: String)
        ensures
            r@ == self.0@,
    {
        self.0.clone()
    }

    pub fn from(name: String) -> (r: Subreddit)
        ensures
            r.0@ == name@,
    {
        Subreddit(name)
    }
}

impl Clone for Subreddit {
    fn clone(&self) -> (r: Self)
        ensures
            r == *self,
    {
        Subreddit(self.0.clone())
    }
}

/// The time window of the `sort` category.
#[derive(PartialEq, Eq, Structural, Clone, Copy, Debug)]
pub enum Time {
    Hour,
    Day,
    Week,
    Month,
    Year,
    All,
}

/// The pagination direction. `After` anchors the next request after the
/// last seen item (Forward, crawling older items); `Back` anchors it
/// before the first seen item (crawling newer items).
pub enum Seek {
    After { cache: VecDeque<Post> },
    Back { cache: VecDeque<Post> },
}

/// Cursor state of a paginated listing: direction with its anchor cache,
/// page size, count of seen items and the `show` rules.
pub struct Pagination {
    pub cursor_anchor: Seek,
    pub limit: u64,
    pub seen_count: u64,
    pub show_rules: String,
}

impl Pagination {
    /// Whether the direction is Forward (`Seek::After`).
    pub open spec fn is_forward(self) -> bool {
        self.cursor_anchor is After
    }

    /// The anchor cache, whichever the direction.
    pub open spec fn cache_seq(self) -> Seq<Post> {
        match self.cursor_anchor {
            Seek::After { cache } => cache@,
            Seek::Back { cache } => cache@,
        }
    }

    pub fn builder() -> (r: Pagination)
        ensures
            r.is_forward(),
            r.cache_seq() == Seq::<Post>::empty(),
            r.limit == 0,
            r.seen_count == 0,
            r.show_rules@ == Seq::<char>::empty(),
    {
        Pagination {
            cursor_anchor: Seek::After { cache: VecDeque::new() },
            limit: 0,
            seen_count: 0,
            show_rules: String::new(),
        }
    }

    pub fn cursor(&self) -> (r: &Seek)
        ensures
            r == &self.cursor_anchor,
    {
        &self.cursor_anchor
    }

    /// Append a post to the anchor cache, keeping the direction.
    pub fn set_cursor(&mut self, p: Post)
        ensures
            final(self).is_forward() == old(self).is_forward(),
            final(self).cache_seq() == old(self).cache_seq().push(p),
            final(self).limit == old(self).limit,
            final(self).seen_count == old(self).seen_count,
            final(self).show_rules == old(self).show_rules,
    {
        match &mut self.cursor_anchor {
            Seek::After { cache } => {
                cache.push_back(p);
            },
            Seek::Back { cache } => {
                cache.push_back(p);
            },
        }
    }

    pub fn set_limit(&mut self, value: u64)
        ensures
            final(self).limit == value,
            final(self).cursor_anchor == old(self).cursor_anchor,
            final(self).seen_count == old(self).seen_count,
            final(self).show_rules == old(self).show_rules,
    {
        self.limit = value;
    }

    /// Turn the direction Forward, clearing the anchor cache.
    pub fn seek_forward(&mut self)
        ensures
            final(self).is_forward(),
            final(self).cache_seq() == Seq::<Post>::empty(),
            final(self).limit == old(self).limit,
            final(self).seen_count == old(self).seen_count,
            final(self).show_rules == old(self).show_rules,
    {
        self.cursor_anchor = Seek::After { cache: VecDeque::new() };
    }

    /// Turn the direction Back, clearing the anchor cache.
    pub fn seek_back(&mut self)
        ensures
            !final(self).is_forward(),
            final(self).cache_seq() == Seq::<Post>::empty(),
            final(self).limit == old(self).limit,
            final(self).seen_count == old(self).seen_count,
            final(self).show_rules == old(self).show_rules,
    {
        self.cursor_anchor = Seek::Back { cache: VecDeque::new() };
    }
}

/// The cursor token of the next request: `null` while the cache holds no
/// usable anchor, otherwise `t3_` followed by the anchor post's id. The
/// anchor is the last cached post when seeking forward, the first when
/// seeking back.
pub open spec fn cursor_token(cache: Seq<Post>, forward: bool) -> Seq<char> {
    if cache.len() == 0 {
        "null"@
    } else {
        let id = if forward {
            cache.last().id@
        } else {
            cache.first().id@
        };
        if id.len() == 0 {
            "null"@
        } else {
            "t3_"@ + id
        }
    }
}

/// The anchor part of the query string: `?after=<token>` for Forward,
/// `?before=<token>` for Back.
pub open spec fn seek_args(p: Pagination) -> Seq<char> {
    if p.is_forward() {
        "?after="@ + cursor_token(p.cache_seq(), true)
    } else {
        "?before="@ + cursor_token(p.cache_seq(), false)
    }
}

/// The full query string of a paginated request.
pub open spec fn url_args_spec(p: Pagination) -> Seq<char> {
    seek_args(p) + "&count="@ + dec_str(p.seen_count as int) + "&limit="@ + dec_str(
        p.limit as int,
    ) + "&show="@ + p.show_rules@
}

/// A listing descriptor: which community, which category, and (for every
/// category but `random`) the pagination state.
pub enum Listing {
    Hot { subreddit: Subreddit, paginator: Pagination },
    New { subreddit: Subreddit, paginator: Pagination },
    Rising { subreddit: Subreddit, paginator: Pagination },
    Sort { subreddit: Subreddit, paginator: Pagination, time: Time },
    Random { subreddit: Subreddit },
}

/// The category names a descriptor can be built from.
pub open spec fn valid_listing_name(name: Seq<char>) -> bool {
    name == "hot"@ || name == "new"@ || name == "rising"@ || name == "sort"@ || name == "random"@
}

impl Listing {
    pub open spec fn is_random(self) -> bool {
        self is Random
    }

    /// What identifies a subscription: its community and category.
    pub open spec fn key(self) -> (Seq<char>, Seq<char>) {
        (self.sub_name(), self.tag_spec())
    }

    /// The community name.
    pub open spec fn sub_name(self) -> Seq<char> {
        match self {
            Listing::Hot { subreddit, .. } => subreddit.0@,
            Listing::New { subreddit, .. } => subreddit.0@,
            Listing::Rising { subreddit, .. } => subreddit.0@,
            Listing::Sort { subreddit, .. } => subreddit.0@,
            Listing::Random { subreddit } => subreddit.0@,
        }
    }

    /// The pagination state; meaningful for every category but `random`.
    pub open spec fn pag(self) -> Pagination
        recommends
            !self.is_random(),
    {
        match self {
            Listing::Hot { paginator, .. } => paginator,
            Listing::New { paginator, .. } => paginator,
            Listing::Rising { paginator, .. } => paginator,
            Listing::Sort { paginator, .. } => paginator,
            Listing::Random { .. } => arbitrary(),
        }
    }

    /// The category tag as it appears in the endpoint path.
    pub open spec fn tag_spec(self) -> Seq<char> {
        match self {
            Listing::Hot { .. } => "hot"@,
            Listing::New { .. } => "new"@,
            Listing::Random { .. } => "random"@,
            Listing::Rising { .. } => "rising"@,
            Listing::Sort { .. } => "sort"@,
        }
    }

    /// The time window; meaningful for the `sort` category only.
    pub open spec fn time_spec(self) -> Time
        recommends
            self is Sort,
    {
        match self {
            Listing::Sort { time, .. } => time,
            _ => arbitrary(),
        }
    }
}

/// The endpoint a descriptor polls: base, community path, category tag,
/// and for paginated categories the query string.
pub open spec fn endpoint_spec(l: Listing) -> Seq<char> {
    let base = "https://oauth.reddit.com"@ + "/r/"@ + l.sub_name() + "/"@ + l.tag_spec();
    if l.is_random() {
        base
    } else {
        base + url_args_spec(l.pag())
    }
}

impl Listing {
    /// Build a descriptor for a named category over `sub`: pagination
    /// seeded with the sentinel cursor and a page size of 5.
    pub fn from(listing_name: &str, sub: Subreddit) -> (r: Listing)
        requires
            valid_listing_name(listing_name@),
        ensures
            r.tag_spec() == listing_name@,
            r.sub_name() == sub.0@,
            r is Sort ==> r.time_spec() == Time::Hour,
            !r.is_random() ==> {
                &&& r.pag().is_forward()
                &&& r.pag().cache_seq().len() == 1
                &&& r.pag().cache_seq()[0].is_sentinel()
                &&& r.pag().limit == 5
                &&& r.pag().seen_count == 0
                &&& r.pag().show_rules@ == Seq::<char>::empty()
            },
            r.is_random() <==> listing_name@ == "random"@,
    {
        let mut pagination = Pagination::builder();
        pagination.set_cursor(Post::empty());
        pagination.set_limit(5);

        proof {
            reveal_strlit("hot");
            reveal_strlit("new");
            reveal_strlit("rising");
            reveal_strlit("sort");
            reveal_strlit("random");
            assert("hot"@.len() == 3 && "new"@.len() == 3 && "sort"@.len() == 4);
            assert("rising"@.len() == 6 && "random"@.len() == 6);
            assert("hot"@[0] == 'h' && "new"@[0] == 'n');
            assert("rising"@[1] == 'i' && "random"@[1] == 'a');
        }
        if str_eq(listing_name, "hot") {
            Listing::Hot { subreddit: sub, paginator: pagination }
        } else if str_eq(listing_name, "new") {
            Listing::New { subreddit: sub, paginator: pagination }
        } else if str_eq(listing_name, "rising") {
            Listing::Rising { subreddit: sub, paginator: pagination }
        } else if str_eq(listing_name, "sort") {
            Listing::Sort { subreddit: sub, paginator: pagination, time: Time::Hour }
        } else {
            Listing::Random { subreddit: sub }
        }
    }

    /// Whether this descriptor is the `random` category, which does not
    /// paginate.
    pub fn is_random_listing(&self) -> (r: bool)
        ensures
            r == self.is_random(),
    {
        matches!(self, Listing::Random { .. })
    }

    /// The community this descriptor polls.
    pub fn subreddit(&self) -> (r: Subreddit)
        ensures
            r.0@ == self.sub_name(),
    {
        match self {
            Listing::Hot { subreddit, .. } => subreddit.clone(),
            Listing::New { subreddit, .. } => subreddit.clone(),
            Listing::Rising { subreddit, .. } => subreddit.clone(),
            Listing::Sort { subreddit, .. } => subreddit.clone(),
            Listing::Random { subreddit } => subreddit.clone(),
        }
    }

    /// The category tag as it appears in the endpoint path.
    pub fn listing_tag(&self) -> (r: &'static str)
        ensures
            r@ == self.tag_spec(),
    {
        match self {
            Listing::Hot { .. } => "hot",
            Listing::New { .. } => "new",
            Listing::Random { .. } => "random",
            Listing::Rising { .. } => "rising",
            Listing::Sort { .. } => "sort",
        }
    }

    /// The pagination state; absent for `random`.
    pub fn paginator(&self) -> (r: &Pagination)
        requires
            !self.is_random(),
        ensures
            *r == self.pag(),
    {
        match self {
            Listing::Hot { paginator, .. } => paginator,
            Listing::New { paginator, .. } => paginator,
            Listing::Rising { paginator, .. } => paginator,
            Listing::Sort { paginator, .. } => paginator,
            Listing::Random { .. } => unreached(),
        }
    }

    /// Page size of one request: `random` yields a single item.
    pub fn result_limit(&self) -> (r: u64)
        ensures
            r == if self.is_random() {
                1u64
            } else {
                self.pag().limit
            },
    {
        match self {
            Listing::Random { .. } => 1,
            _ => self.paginator().limit,
        }
    }

    /// The query string for the given pagination state.
    pub fn url_args(&self, pagination_arg: &Pagination) -> (r: String)
        ensures
            r@ == url_args_spec(*pagination_arg),
    {
        let mut buf = String::new();
        match &pagination_arg.cursor_anchor {
            Seek::After { cache } => {
                buf.append("?after=");
                Self::push_cursor_token(&mut buf, cache, true);
            },
            Seek::Back { cache } => {
                buf.append("?before=");
                Self::push_cursor_token(&mut buf, cache, false);
            },
        }
        buf.append("&count=");
        buf.append(u64_to_dec(pagination_arg.seen_count).as_str());
        buf.append("&limit=");
        buf.append(u64_to_dec(pagination_arg.limit).as_str());
        buf.append("&show=");
        buf.append(pagination_arg.show_rules.as_str());
        proof {
            assert(buf@ =~= url_args_spec(*pagination_arg));
        }
        buf
    }

    fn push_cursor_token(buf: &mut String, cache: &VecDeque<Post>, forward: bool)
        ensures
            final(buf)@ == old(buf)@ + cursor_token(cache@, forward),
    {
        if cache.len() == 0 {
            buf.append("null");
        } else {
            let anchor = if forward {
                &cache[cache.len() - 1]
            } else {
                &cache[0]
            };
            if anchor.id.as_str().is_empty() {
                buf.append("null");
            } else {
                buf.append("t3_");
                buf.append(anchor.id.as_str());
                proof {
                    assert(final(buf)@ =~= old(buf)@ + cursor_token(cache@, forward));
                }
            }
        }
    }

    /// The full endpoint URL this descriptor polls.
    pub fn endpoint(&self) -> (r: String)
        ensures
            r@ == endpoint_spec(*self),
    {
        let mut href_buf = String::new();
        href_buf.append("https://oauth.reddit.com");
        href_buf.append("/r/");
        let name = self.subreddit().name();
        href_buf.append(name.as_str());
        href_buf.append("/");
        href_buf.append(self.listing_tag());
        match self {
            Listing::Random { .. } => {},
            _ => {
                let args = self.url_args(self.paginator());
                href_buf.append(args.as_str());
            },
        }
        proof {
            assert(href_buf@ =~= endpoint_spec(*self));
        }
        href_buf
    }

    /// Replace the anchor cache with a non-empty response, in source
    /// order; an empty response leaves the cache (and everything else)
    /// unchanged, and `random` carries no cache at all.
    pub fn update_paginator_cache(&mut self, with: &VecDeque<Post>)
        ensures
            final(self).sub_name() == old(self).sub_name(),
            final(self).tag_spec() == old(self).tag_spec(),
            final(self).is_random() == old(self).is_random(),
            ((*final(self)) is Sort) == ((*old(self)) is Sort),
            final(self).time_spec() == old(self).time_spec(),
            old(self).is_random() ==> *final(self) == *old(self),
            !old(self).is_random() ==> {
                &&& final(self).pag().cache_seq() == if with@.len() > 0 {
                    with@
                } else {
                    old(self).pag().cache_seq()
                }
                &&& final(self).pag().is_forward() == old(self).pag().is_forward()
                &&& final(self).pag().limit == old(self).pag().limit
                &&& final(self).pag().seen_count == old(self).pag().seen_count
                &&& final(self).pag().show_rules == old(self).pag().show_rules
            },
    {
        if with.len() == 0 {
            return;
        }
        match self {
            Listing::Random { .. } => {},
            Listing::Hot { paginator, .. } => Self::refill_cache(paginator, with),
            Listing::New { paginator, .. } => Self::refill_cache(paginator, with),
            Listing::Rising { paginator, .. } => Self::refill_cache(paginator, with),
            Listing::Sort { paginator, .. } => Self::refill_cache(paginator, with),
        }
    }

    fn refill_cache(paginator: &mut Pagination, with: &VecDeque<Post>)
        ensures
            final(paginator).cache_seq() == with@,
            final(paginator).is_forward() == old(paginator).is_forward(),
            final(paginator).limit == old(paginator).limit,
            final(paginator).seen_count == old(paginator).seen_count,
            final(paginator).show_rules == old(paginator).show_rules,
    {
        match &mut paginator.cursor_anchor {
            Seek::After { cache } => Self::copy_posts(cache, with),
            Seek::Back { cache } => Self::copy_posts(cache, with),
        }
    }

    fn copy_posts(cache: &mut VecDeque<Post>, with: &VecDeque<Post>)
        ensures
            final(cache)@ == with@,
    {
        cache.clear();
        let mut i: usize = 0;
        while i < with.len()
            invariant
                i <= with@.len(),
                cache@ == with@.take(i as int),
            decreases with@.len() - i,
        {
            cache.push_back(with[i].clone());
            proof {
                assert(cache@ =~= with@.take(i as int + 1));
            }
            i += 1;
        }
        proof {
            assert(with@.take(with@.len() as int) =~= with@);
        }
    }

    /// Reset the anchor cache to the single sentinel, so that the next
    /// request anchors on the literal `null` again. The forward recovery
    /// path does this before it re-reads the head of the listing.
    pub fn reset_cursor(&mut self)
        requires
            !old(self).is_random(),
        ensures
            final(self).sub_name() == old(self).sub_name(),
            final(self).tag_spec() == old(self).tag_spec(),
            !final(self).is_random(),
            ((*final(self)) is Sort) == ((*old(self)) is Sort),
            final(self).time_spec() == old(self).time_spec(),
            final(self).pag().is_forward() == old(self).pag().is_forward(),
            final(self).pag().cache_seq().len() == 1,
            final(self).pag().cache_seq()[0].is_sentinel(),
            final(self).pag().limit == old(self).pag().limit,
            final(self).pag().seen_count == old(self).pag().seen_count,
            final(self).pag().show_rules == old(self).pag().show_rules,
    {
        let mut deck: VecDeque<Post> = VecDeque::new();
        deck.push_back(Post::empty());
        self.update_paginator_cache(&deck);
    }
}

/// The canonical link of a post: the host in front of a non-empty
/// permalink, nothing for an empty one.
pub open spec fn link_of(permalink: Seq<char>) -> Seq<char> {
    if permalink.len() == 0 {
        Seq::<char>::empty()
    } else {
        "https://www.reddit.com"@ + permalink
    }
}

/// An extracted string field, empty when the response carried none.
pub open spec fn opt_str(o: Option<String>) -> Seq<char> {
    match o {
        Option::Some(s) => s@,
        Option::None => Seq::<char>::empty(),
    }
}

/// An extracted vote count: the number when it fits a 32-bit count,
/// zero when it is missing or out of range.
pub open spec fn vote_or_zero(o: Option<i64>) -> i32 {
    match o {
        Option::Some(v) => if i32::MIN <= v <= i32::MAX {
            v as i32
        } else {
            0
        },
        Option::None => 0,
    }
}

/// Build a post from the fields extracted from one response child.
/// The `url` field of the response is the media link; the displayed
/// canonical link comes from the permalink. A child whose id is missing,
/// empty (the sentinel, which must never be delivered), or `ul` — the
/// source's placeholder for the end-of-stream slot — yields nothing.
pub fn assemble_post(
    id: Option<String>,
    url: Option<String>,
    author: Option<String>,
    title: Option<String>,
    permalink: Option<String>,
    ups: Option<i64>,
    downs: Option<i64>,
) -> (r: Option<Post>)
    ensures
        r is Some <==> id is Some && id.unwrap()@ != "ul"@ && id.unwrap()@.len() > 0,
        r is Some ==> {
            let p = r.unwrap();
            &&& p.id@ == id.unwrap()@
            &&& p.link@ == link_of(opt_str(permalink))
            &&& p.media_href@ == opt_str(url)
            &&& p.author@ == opt_str(author)
            &&& p.title@ == opt_str(title)
            &&& p.ups == vote_or_zero(ups)
            &&& p.downs == vote_or_zero(downs)
        },
{
    let id = match id {
        Option::Some(s) => s,
        Option::None => {
            return Option::None;
        },
    };
    if str_eq(id.as_str(), "ul") || id.as_str().is_empty() {
        return Option::None;
    }
    let link = match permalink {
        Option::Some(perma) => {
            if perma.as_str().is_empty() {
                String::new()
            } else {
                let mut l = String::new();
                l.append("https://www.reddit.com");
                l.append(perma.as_str());
                l
            }
        },
        Option::None => String::new(),
    };
    Option::Some(
        Post::new(
            id,
            link,
            or_empty(url),
            or_empty(author),
            or_empty(title),
            (vote_count(ups), vote_count(downs)),
        ),
    )
}

fn or_empty(o: Option<String>) -> (r: String)
    ensures
        r@ == opt_str(o),
{
    match o {
        Option::Some(s) => s,
        Option::None => String::new(),
    }
}

fn vote_count(o: Option<i64>) -> (r: i32)
    ensures
        r == vote_or_zero(o),
{
    match o {
        Option::Some(v) => {
            if i32::MIN as i64 <= v && v <= i32::MAX as i64 {
                v as i32
            } else {
                0
            }
        },
        Option::None => 0,
    }
}

/// An extracted string field as a plain value, empty when the body
/// carried none.
pub open spec fn opt_seq(o: Option<Seq<char>>) -> Seq<char> {
    match o {
        Option::Some(s) => s,
        Option::None => Seq::<char>::empty(),
    }
}

/// An extracted vote count as a plain value: the number when it fits a
/// 32-bit count, zero when it is missing or out of range.
pub open spec fn int_vote(o: Option<int>) -> int {
    match o {
        Option::Some(v) => if i32::MIN <= v <= i32::MAX {
            v
        } else {
            0
        },
        Option::None => 0,
    }
}

/// The views of a sequence of posts, in order.
pub open spec fn views_of(s: Seq<Post>) -> Seq<PostView> {
    s.map(|i: int, p: Post| p@)
}

/// What the child at `idx` of the body's `data.children` array yields:
/// nothing when its id is missing, empty (the sentinel) or the
/// end-of-stream placeholder `ul`, otherwise the post assembled from
/// its fields.
pub open spec fn child_view_of(body: Seq<char>, idx: int) -> Option<PostView> {
    match child_str_of(body, "data"@, "children"@, idx, "data"@, "id"@) {
        Option::None => Option::None,
        Option::Some(id) => if id == "ul"@ || id.len() == 0 {
            Option::None
        } else {
            Option::Some(
                PostView {
                    id,
                    link: link_of(
                        opt_seq(child_str_of(body, "data"@, "children"@, idx, "data"@, "permalink"@)),
                    ),
                    media_href: opt_seq(
                        child_str_of(body, "data"@, "children"@, idx, "data"@, "url"@),
                    ),
                    title: opt_seq(child_str_of(body, "data"@, "children"@, idx, "data"@, "title"@)),
                    author: opt_seq(
                        child_str_of(body, "data"@, "children"@, idx, "data"@, "author"@),
                    ),
                    ups: int_vote(child_int_of(body, "data"@, "children"@, idx, "data"@, "ups"@)),
                    downs: int_vote(
                        child_int_of(body, "data"@, "children"@, idx, "data"@, "downs"@),
                    ),
                },
            )
        },
    }
}

/// The page a body yields under a result count: what the first `n`
/// children yield, in source order.
pub open spec fn page_of(body: Seq<char>, n: int) -> Seq<PostView>
    decreases n,
{
    if n <= 0 {
        Seq::<PostView>::empty()
    } else {
        page_of(body, n - 1) + match child_view_of(body, n - 1) {
            Option::Some(v) => seq![v],
            Option::None => Seq::<PostView>::empty(),
        }
    }
}

/// Extract the posts of a response body, in source order (newest
/// first): exactly what the first `result_count` children of
/// `data.children` yield. A malformed body or a child without a usable
/// id contributes nothing, so a body that does not decode yields the
/// empty page.
pub fn serialize(body: &str, result_count: u64) -> (posts: VecDeque<Post>)
    requires
        result_count <= usize::MAX as u64,
    ensures
        views_of(posts@) == page_of(body@, result_count as int),
        posts@.len() <= result_count,
{
    let mut posts: VecDeque<Post> = VecDeque::new();
    let mut i: usize = 0;
    while i < result_count as usize
        invariant
            posts@.len() <= i,
            i <= result_count,
            views_of(posts@) == page_of(body@, i as int),
        decreases result_count - i,
    {
        let id_arg = child_str(body, "data", "children", i, "data", "id");
        let url_arg = child_str(body, "data", "children", i, "data", "url");
        let author_arg = child_str(body, "data", "children", i, "data", "author");
        let title_arg = child_str(body, "data", "children", i, "data", "title");
        let permalink_arg = child_str(body, "data", "children", i, "data", "permalink");
        let ups_arg = child_int(body, "data", "children", i, "data", "ups");
        let downs_arg = child_int(body, "data", "children", i, "data", "downs");
        let ghost gid = id_arg;
        let ghost gurl = url_arg;
        let ghost gauthor = author_arg;
        let ghost gtitle = title_arg;
        let ghost gpermalink = permalink_arg;
        let ghost gups = ups_arg;
        let ghost gdowns = downs_arg;
        let post = assemble_post(
            id_arg,
            url_arg,
            author_arg,
            title_arg,
            permalink_arg,
            ups_arg,
            downs_arg,
        );
        proof {
            assert(opt_seq(child_str_of(body@, "data"@, "children"@, i as int, "data"@, "url"@))
                == opt_str(gurl));
            assert(opt_seq(child_str_of(body@, "data"@, "children"@, i as int, "data"@, "author"@))
                == opt_str(gauthor));
            assert(opt_seq(child_str_of(body@, "data"@, "children"@, i as int, "data"@, "title"@))
                == opt_str(gtitle));
            assert(opt_seq(
                child_str_of(body@, "data"@, "children"@, i as int, "data"@, "permalink"@),
            ) == opt_str(gpermalink));
            assert(int_vote(child_int_of(body@, "data"@, "children"@, i as int, "data"@, "ups"@))
                == vote_or_zero(gups) as int);
            assert(int_vote(child_int_of(body@, "data"@, "children"@, i as int, "data"@, "downs"@))
                == vote_or_zero(gdowns) as int);
        }
        match post {
            Option::Some(p) => {
                proof {
                    let ghost before = posts@;
                    assert(child_view_of(body@, i as int) == Option::Some(p@));
                    assert(page_of(body@, i as int + 1) == page_of(body@, i as int) + seq![p@]);
                }
                posts.push_back(p);
                proof {
                    assert(views_of(posts@) =~= page_of(body@, i as int) + seq![posts@.last()@]);
                }
            },
            Option::None => {
                proof {
                    assert(child_view_of(body@, i as int) is None);
                    assert(page_of(body@, i as int + 1) =~= page_of(body@, i as int));
                }
            },
        }
        i += 1;
    }
    posts
}

/// Law: no post a page yields carries the end-of-stream placeholder or
/// the sentinel's empty id.
pub proof fn lemma_page_ids_usable(body: Seq<char>, n: int, i: int)
    requires
        0 <= i < page_of(body, n).len(),
    ensures
        page_of(body, n)[i].id != "ul"@,
        page_of(body, n)[i].id.len() > 0,
    decreases n,
{
    if n > 0 {
        let prev = page_of(body, n - 1);
        if i < prev.len() {
            lemma_page_ids_usable(body, n - 1, i);
        }
    }
}

/// Law: a body none of whose children yields an id — a body that does
/// not decode at all gives no child anything — yields the empty page.
pub proof fn lemma_page_empty_without_ids(body: Seq<char>, n: int)
    requires
        forall|k: int|
            0 <= k < n ==> child_str_of(body, "data"@, "children"@, k, "data"@, "id"@) is None,
    ensures
        page_of(body, n).len() == 0,
    decreases n,
{
    if n > 0 {
        lemma_page_empty_without_ids(body, n - 1);
    }
}

/// A bearer token for the listing source's API, with the instant it
/// expires, in seconds of a process-wide monotonic clock.
pub struct BearerToken {
    pub token: String,
    pub expires: u64,
}

impl Clone for BearerToken {
    fn clone(&self) -> (r: Self)
        ensures
            r == *self,
    {
        BearerToken { token: self.token.clone(), expires: self.expires }
    }
}

impl BearerToken {
    /// A token is good for use only while more than sixty seconds of
    /// validity remain; after that the adapter refreshes it.
    pub fn needs_refresh(&self, now: u64) -> (r: bool)
        ensures
            r == (now + 60 >= self.expires),
    {
        if self.expires >= 60 {
            now >= self.expires - 60
        } else {
            true
        }
    }
}

/// Whether a token is acquired afresh by the password grant or renewed
/// by the refresh-token exchange.
pub enum AuthTokenAction {
    New,
    Refresh,
}

/// The query string of a token request against the auth endpoint.
pub fn auth_url_args(
    username: String,
    pass: String,
    token: Option<&BearerToken>,
    auth_option: AuthTokenAction,
) -> (r: String)
    requires
        auth_option is Refresh ==> token is Some,
    ensures
        auth_option is New ==> r@ == "?grant_type=password&username="@ + username@ + "&password="@
            + pass@,
        auth_option is Refresh ==> r@ == "?grant_type=refresh_token&refresh_token="@
            + token.unwrap().token@,
{
    let mut args = String::new();
    match auth_option {
        AuthTokenAction::New => {
            args.append("?grant_type=password&username=");
            args.append(username.as_str());
            args.append("&password=");
            args.append(pass.as_str());
            proof {
                assert(args@ =~= "?grant_type=password&username="@ + username@ + "&password="@
                    + pass@);
            }
        },
        AuthTokenAction::Refresh => {
            args.append("?grant_type=refresh_token&refresh_token=");
            match token {
                Option::Some(t) => args.append(t.token.as_str()),
                Option::None => {},
            }
        },
    }
    args
}

} // verus!
