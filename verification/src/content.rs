//! Items produced by the listing source, and the persisted subscription rows.

use vstd::prelude::*;

verus! {

/// The mathematical content of a post: every field as a plain value.
pub ghost struct PostView {
    pub id: Seq<char>,
    pub link: Seq<char>,
    pub media_href: Seq<char>,
    pub title: Seq<char>,
    pub author: Seq<char>,
    pub ups: int,
    pub downs: int,
}

/// A single item observed on the listing source. Identity is the `id` field
/// alone: two posts with the same `id` are the same post, and the sentinel
/// (empty `id`) is only ever used to seed pagination cursors.
pub struct Post {
    pub id: String,
    pub link: String,
    pub media_href: String,
    pub title: String,
    pub author: String,
    pub ups: i32,
    pub downs: i32,
}

impl View for Post {
    type V = PostView;

    open spec fn view(&self) -> PostView {
        PostView {
            id: self.id@,
            link: self.link@,
            media_href: self.media_href@,
            title: self.title@,
            author: self.author@,
            ups: self.ups as int,
            downs: self.downs as int,
        }
    }
}

impl Post {
    /// The sentinel post seeds cursors and must never be delivered.
    pub open spec fn is_sentinel(self) -> bool {
        self.id@.len() == 0
    }

    pub fn new(
        id: String,
        link: String,
        media_href: String,
        author: String,
        title: String,
        vote_count: (i32, i32),
    ) -> (r: Post)
        ensures
            r.id == id,
            r.link == link,
            r.media_href == media_href,
            r.author == author,
            r.title == title,
            r.ups == vote_count.0,
            r.downs == vote_count.1,
    {
        Post {
            id,
            link,
            media_href,
            title,
            author,
            ups: vote_count.0,
            downs: vote_count.1,
        }
    }

    pub fn empty() -> (r: Post)
        ensures
            r.is_sentinel(),
            r.id@ == Seq::<char>::empty(),
            r.link@ == Seq::<char>::empty(),
            r.media_href@ == Seq::<char>::empty(),
            r.title@ == Seq::<char>::empty(),
            r.author@ == Seq::<char>::empty(),
            r.ups == 0,
            r.downs == 0,
    {
        Post {
            id: String::new(),
            link: String::new(),
            media_href: String::new(),
            title: String::new(),
            author: String::new(),
            ups: 0,
            downs: 0,
        }
    }

    pub fn id(&self) -> (r: &String)
        ensures
            r == &self.id,
    {
        &self.id
    }

    pub fn title(&self) -> (r: String)
        ensures
            r@ == self.title@,
    {
        self.title.clone()
    }
}

impl Clone for Post {
    fn clone(&self) -> (r: Self)
        ensures
            r == *self,
    {
        Post {
            id: self.id.clone(),
            link: self.link.clone(),
            media_href: self.media_href.clone(),
            title: self.title.clone(),
            author: self.author.clone(),
            ups: self.ups,
            downs: self.downs,
        }
    }
}

impl PartialEq for Post {
    /// Posts compare by `id` alone.
    fn eq(&self, other: &Self) -> (r: bool) {
        self.id == other.id
    }
}

impl vstd::std_specs::cmp::PartialEqSpecImpl for Post {
    open spec fn obeys_eq_spec() -> bool {
        true
    }

    open spec fn eq_spec(&self, other: &Self) -> bool {
        self.id@ == other.id@
    }
}

/// A subscription row as read back from persistence.
#[derive(Debug)]
pub struct SubscribedListing {
    pub user_id: i64,
    pub subreddit: String,
    pub category: String,
    pub head_post_id: Option<String>,
}

/// A subscription row on its way into persistence.
#[derive(Debug)]
pub struct NewlySubscribedListing {
    pub user_id: i64,
    pub subreddit: String,
    pub category: String,
    pub head_post_id: Option<String>,
}

} // verus!
