//! Listing descriptors: endpoint construction, cursor updates, and
//! decoding a response body.

use std::collections::VecDeque;

use artbutler::content::Post;
use artbutler::reddit::{auth_url_args, serialize, AuthTokenAction, BearerToken, Listing,
    Pagination, Seek, Subreddit};
use artbutler::strutil::u64_to_dec;
use artbutler::telegram::is_valid_listing_name;

fn post(id: &str) -> Post {
    Post::new(
        id.to_string(),
        String::new(),
        String::new(),
        "author".to_string(),
        format!("Post {}", id),
        (0, 0),
    )
}

#[test]
fn endpoint_of_fresh_forward_listing() {
    let mut pagination = Pagination::builder();
    pagination.set_cursor(Post::empty());
    pagination.set_limit(2);
    let listing = Listing::New {
        subreddit: Subreddit::from("art".to_string()),
        paginator: pagination,
    };
    assert_eq!(
        listing.endpoint(),
        "https://oauth.reddit.com/r/art/new?after=null&count=0&limit=2&show="
    );
}

#[test]
fn endpoint_cursor_follows_the_cache() {
    let mut pagination = Pagination::builder();
    pagination.set_cursor(Post::empty());
    pagination.set_limit(2);
    let mut listing = Listing::New {
        subreddit: Subreddit::from("art".to_string()),
        paginator: pagination,
    };
    let batch: VecDeque<Post> = [post("1"), post("2")].into_iter().collect();
    listing.update_paginator_cache(&batch);
    assert_eq!(
        listing.endpoint(),
        "https://oauth.reddit.com/r/art/new?after=t3_2&count=0&limit=2&show="
    );

    match listing.paginator().cursor() {
        Seek::After { cache } => {
            assert_eq!(cache.len(), 2);
            assert_eq!(cache[1].id, "2");
        }
        Seek::Back { .. } => panic!("direction changed unexpectedly"),
    }
}

#[test]
fn endpoint_of_back_listing_uses_before_and_first_id() {
    let mut pagination = Pagination::builder();
    pagination.seek_back();
    pagination.set_cursor(Post::empty());
    pagination.set_limit(3);
    let mut listing = Listing::Hot {
        subreddit: Subreddit::from("earthporn".to_string()),
        paginator: pagination,
    };
    assert_eq!(
        listing.endpoint(),
        "https://oauth.reddit.com/r/earthporn/hot?before=null&count=0&limit=3&show="
    );
    let batch: VecDeque<Post> = [post("9"), post("8")].into_iter().collect();
    listing.update_paginator_cache(&batch);
    assert_eq!(
        listing.endpoint(),
        "https://oauth.reddit.com/r/earthporn/hot?before=t3_9&count=0&limit=3&show="
    );
}

#[test]
fn random_endpoint_carries_no_query() {
    let listing = Listing::from("random", Subreddit::from("art".to_string()));
    assert_eq!(listing.endpoint(), "https://oauth.reddit.com/r/art/random");
    assert_eq!(listing.result_limit(), 1);
}

#[test]
fn endpoint_reads_back_to_its_components() {
    let mut pagination = Pagination::builder();
    pagination.set_cursor(post("xyz"));
    pagination.set_limit(5);
    let listing = Listing::Rising {
        subreddit: Subreddit::from("art".to_string()),
        paginator: pagination,
    };
    let url = listing.endpoint();

    let rest = url.strip_prefix("https://oauth.reddit.com/r/").unwrap();
    let (community, rest) = rest.split_once('/').unwrap();
    let (tag, query) = rest.split_once('?').unwrap();
    let (keyword, rest) = query.split_once('=').unwrap();
    let (cursor, _) = rest.split_once('&').unwrap();

    assert_eq!(community, "art");
    assert_eq!(tag, "rising");
    assert_eq!(keyword, "after");
    assert_eq!(cursor, "t3_xyz");
}

#[test]
fn empty_response_leaves_anchor_cache_unchanged() {
    let mut listing = Listing::from("new", Subreddit::from("art".to_string()));
    let empty: VecDeque<Post> = VecDeque::new();
    listing.update_paginator_cache(&empty);
    match listing.paginator().cursor() {
        Seek::After { cache } => {
            assert_eq!(cache.len(), 1);
            assert!(cache[0].id.is_empty());
        }
        Seek::Back { .. } => panic!("direction changed unexpectedly"),
    }
}

#[test]
fn anchor_cache_nonempty_after_successful_retrieve() {
    let mut listing = Listing::from("new", Subreddit::from("art".to_string()));
    let batch: VecDeque<Post> = [post("1")].into_iter().collect();
    listing.update_paginator_cache(&batch);
    match listing.paginator().cursor() {
        Seek::After { cache } => {
            assert_eq!(cache.len(), 1);
            assert_eq!(cache[0].id, "1");
        }
        Seek::Back { .. } => panic!("direction changed unexpectedly"),
    }
}

#[test]
fn reset_cursor_restores_the_sentinel_anchor() {
    let mut listing = Listing::from("new", Subreddit::from("art".to_string()));
    let batch: VecDeque<Post> = [post("1"), post("2")].into_iter().collect();
    listing.update_paginator_cache(&batch);
    listing.reset_cursor();
    match listing.paginator().cursor() {
        Seek::After { cache } => {
            assert_eq!(cache.len(), 1);
            assert!(cache[0].id.is_empty());
        }
        Seek::Back { .. } => panic!("direction changed unexpectedly"),
    }
    assert_eq!(
        listing.endpoint(),
        "https://oauth.reddit.com/r/art/new?after=null&count=0&limit=5&show="
    );
}

#[test]
fn serialize_reads_children_and_filters_placeholders() {
    let body = r#"{"data":{"children":[
        {"data":{"id":"abc","url":"https://i.example/a.png","author":"ann",
                 "title":"First","ups":3,"downs":1,"permalink":"/r/art/abc"}},
        {"data":{"id":"ul"}},
        {"data":{"id":"def","url":"https://i.example/d.png","author":"bob",
                 "title":"Second","ups":-2,"downs":0,"permalink":""}}
    ]}}"#;
    let posts = serialize(body, 3);
    assert_eq!(posts.len(), 2);

    assert_eq!(posts[0].id, "abc");
    assert_eq!(posts[0].link, "https://www.reddit.com/r/art/abc");
    assert_eq!(posts[0].media_href, "https://i.example/a.png");
    assert_eq!(posts[0].author, "ann");
    assert_eq!(posts[0].title, "First");
    assert_eq!(posts[0].ups, 3);
    assert_eq!(posts[0].downs, 1);

    assert_eq!(posts[1].id, "def");
    assert_eq!(posts[1].link, "");
    assert_eq!(posts[1].ups, -2);
}

#[test]
fn serialize_respects_the_result_count() {
    let body = r#"{"data":{"children":[
        {"data":{"id":"abc","title":"First"}},
        {"data":{"id":"def","title":"Second"}}
    ]}}"#;
    let posts = serialize(body, 1);
    assert_eq!(posts.len(), 1);
    assert_eq!(posts[0].id, "abc");
    assert_eq!(posts[0].media_href, "");
    assert_eq!(posts[0].ups, 0);
}

#[test]
fn serialize_skips_children_with_empty_or_missing_ids() {
    let body = r#"{"data":{"children":[
        {"data":{"id":"","title":"sentinel slot"}},
        {"data":{"title":"no id at all"}},
        {"data":{"id":"ok","title":"kept"}}
    ]}}"#;
    let posts = serialize(body, 3);
    assert_eq!(posts.len(), 1);
    assert_eq!(posts[0].id, "ok");
}

#[test]
fn serialize_treats_malformed_json_as_empty_page() {
    assert!(serialize("not json at all", 5).is_empty());
    assert!(serialize(r#"{"data":{}}"#, 5).is_empty());
}

#[test]
fn decimal_rendering_matches() {
    assert_eq!(u64_to_dec(0), "0");
    assert_eq!(u64_to_dec(7), "7");
    assert_eq!(u64_to_dec(12345), "12345");
    assert_eq!(u64_to_dec(u64::MAX), u64::MAX.to_string());
}

#[test]
fn auth_url_args_for_password_grant() {
    let args = auth_url_args("alice".to_string(), "s3cret".to_string(), None, AuthTokenAction::New);
    assert_eq!(args, "?grant_type=password&username=alice&password=s3cret");
}

#[test]
fn auth_url_args_for_refresh_grant() {
    let token = BearerToken { token: "tok123".to_string(), expires: 4000 };
    let args = auth_url_args(
        "alice".to_string(),
        "s3cret".to_string(),
        Some(&token),
        AuthTokenAction::Refresh,
    );
    assert_eq!(args, "?grant_type=refresh_token&refresh_token=tok123");
}

#[test]
fn token_refresh_window_is_sixty_seconds() {
    let token = BearerToken { token: "tok".to_string(), expires: 100 };
    assert!(!token.needs_refresh(39));
    assert!(token.needs_refresh(40));
    assert!(token.needs_refresh(100));
    let early = BearerToken { token: "tok".to_string(), expires: 30 };
    assert!(early.needs_refresh(0));
}

#[test]
fn listing_names_are_validated() {
    assert!(is_valid_listing_name("hot"));
    assert!(is_valid_listing_name("new"));
    assert!(is_valid_listing_name("rising"));
    assert!(is_valid_listing_name("sort"));
    assert!(is_valid_listing_name("random"));
    assert!(!is_valid_listing_name("best"));
    assert!(!is_valid_listing_name(""));
}

#[test]
fn serialize_defaults_out_of_range_votes_to_zero() {
    let body = r#"{"data":{"children":[
        {"data":{"id":"abc","ups":4294967296,"downs":7}}
    ]}}"#;
    let posts = serialize(body, 1);
    assert_eq!(posts.len(), 1);
    assert_eq!(posts[0].ups, 0);
    assert_eq!(posts[0].downs, 7);
}

#[test]
fn random_endpoint_reads_back_community_and_tag() {
    let listing = Listing::from("random", Subreddit::from("earthporn".to_string()));
    let url = listing.endpoint();
    let rest = url.strip_prefix("https://oauth.reddit.com/r/").unwrap();
    let (community, tag) = rest.split_once('/').unwrap();
    assert_eq!(community, "earthporn");
    assert_eq!(tag, "random");
    assert!(!tag.contains('?'));
}

#[test]
fn listing_from_builds_each_category() {
    let hot = Listing::from("hot", Subreddit::from("art".to_string()));
    assert_eq!(hot.listing_tag(), "hot");
    assert_eq!(hot.subreddit().name(), "art");
    assert_eq!(hot.result_limit(), 5);
    let sort = Listing::from("sort", Subreddit::from("art".to_string()));
    assert_eq!(sort.listing_tag(), "sort");
}
