//! Reading an endpoint URL back into its components, and the proof that
//! endpoint construction loses nothing: community, category tag,
//! direction and cursor token all come back.

use vstd::prelude::*;

use crate::reddit::{cursor_token, endpoint_spec, seek_args, Listing};

verus! {

/// The components read back from an endpoint URL.
pub ghost struct EndpointParts {
    pub community: Seq<char>,
    pub tag: Seq<char>,
    /// For a paginated endpoint: whether the anchor seeks forward
    /// (`after`), and the cursor token of the next request.
    pub pagination: Option<(bool, Seq<char>)>,
}

/// Split a sequence at the first occurrence of `c`: what stands before
/// it and what follows it.
pub open spec fn split_at_char(s: Seq<char>, c: char) -> Option<(Seq<char>, Seq<char>)>
    decreases s.len(),
{
    if s.len() == 0 {
        Option::None
    } else if s.first() == c {
        Option::Some((Seq::<char>::empty(), s.drop_first()))
    } else {
        match split_at_char(s.drop_first(), c) {
            Option::Some(parts) => Option::Some((seq![s.first()] + parts.0, parts.1)),
            Option::None => Option::None,
        }
    }
}

/// Splitting at a separator that does not occur in the part before it
/// recovers both parts.
pub proof fn lemma_split_at_separator(x: Seq<char>, c: char, y: Seq<char>)
    requires
        !x.contains(c),
    ensures
        split_at_char(x + seq![c] + y, c) == Option::Some((x, y)),
    decreases x.len(),
{
    let s = x + seq![c] + y;
    if x.len() == 0 {
        assert(s.first() == c);
        assert(s.drop_first() =~= y);
        assert(split_at_char(s, c).unwrap().0 =~= x);
    } else {
        assert(s.first() == x.first());
        assert(x[0] != c);
        assert(s.drop_first() =~= x.drop_first() + seq![c] + y);
        assert forall|i: int| 0 <= i < x.drop_first().len() implies x.drop_first()[i] != c by {
            assert(x.drop_first()[i] == x[i + 1]);
        }
        lemma_split_at_separator(x.drop_first(), c, y);
        assert(seq![s.first()] + x.drop_first() =~= x);
    }
}

/// Read an endpoint URL: the fixed base and community prefix, the
/// community up to its slash, the category tag up to the query string —
/// a tag that runs to the end of the URL carries no pagination — then
/// the anchor keyword up to its equals sign and the cursor token up to
/// the following parameter.
pub open spec fn parse_endpoint(s: Seq<char>) -> Option<EndpointParts> {
    let prefix = "https://oauth.reddit.com"@ + "/r/"@;
    if s.len() < prefix.len() || s.take(prefix.len() as int) != prefix {
        Option::None
    } else {
        match split_at_char(s.skip(prefix.len() as int), '/') {
            Option::None => Option::None,
            Option::Some((community, rest)) => match split_at_char(rest, '?') {
                Option::None => Option::Some(
                    EndpointParts { community, tag: rest, pagination: Option::None },
                ),
                Option::Some((tag, query)) => match split_at_char(query, '=') {
                    Option::None => Option::None,
                    Option::Some((keyword, anchored)) => if keyword != "after"@ && keyword
                        != "before"@ {
                        Option::None
                    } else {
                        match split_at_char(anchored, '&') {
                            Option::None => Option::None,
                            Option::Some((cursor, _)) => Option::Some(
                                EndpointParts {
                                    community,
                                    tag,
                                    pagination: Option::Some((keyword == "after"@, cursor)),
                                },
                            ),
                        }
                    },
                },
            },
        }
    }
}

/// Law: parsing the endpoint URL of a paginated descriptor re-reads the
/// same community, category tag, direction and cursor token. Community
/// names carrying a slash, and cursor ids carrying an ampersand, would
/// run into the URL's own separators and are left out.
#[verifier::rlimit(100)]
pub proof fn lemma_endpoint_round_trip(l: Listing)
    requires
        !l.is_random(),
        !l.sub_name().contains('/'),
        !cursor_token(l.pag().cache_seq(), l.pag().is_forward()).contains('&'),
    ensures
        parse_endpoint(endpoint_spec(l)) == Option::Some(
            EndpointParts {
                community: l.sub_name(),
                tag: l.tag_spec(),
                pagination: Option::Some(
                    (
                        l.pag().is_forward(),
                        cursor_token(l.pag().cache_seq(), l.pag().is_forward()),
                    ),
                ),
            },
        ),
{
    reveal_strlit("https://oauth.reddit.com");
    reveal_strlit("/r/");
    reveal_strlit("/");
    reveal_strlit("hot");
    reveal_strlit("new");
    reveal_strlit("rising");
    reveal_strlit("sort");
    reveal_strlit("?after=");
    reveal_strlit("?before=");
    reveal_strlit("after");
    reveal_strlit("before");
    reveal_strlit("&count=");
    reveal_strlit("&limit=");
    reveal_strlit("&show=");

    let s = endpoint_spec(l);
    let prefix = "https://oauth.reddit.com"@ + "/r/"@;
    let name = l.sub_name();
    let tag = l.tag_spec();
    let forward = l.pag().is_forward();
    let token = cursor_token(l.pag().cache_seq(), forward);
    let numbers = "&count="@ + crate::strutil::dec_str(l.pag().seen_count as int) + "&limit="@
        + crate::strutil::dec_str(l.pag().limit as int) + "&show="@ + l.pag().show_rules@;

    assert(s.len() >= prefix.len()) by {
        assert(s =~= prefix + (name + seq!['/'] + (tag + seek_args(l.pag()) + numbers)));
    }
    let after_prefix = name + seq!['/'] + (tag + seek_args(l.pag()) + numbers);
    assert(s =~= prefix + after_prefix);
    assert(s.take(prefix.len() as int) =~= prefix);
    assert(s.skip(prefix.len() as int) =~= after_prefix);

    lemma_split_at_separator(name, '/', tag + seek_args(l.pag()) + numbers);
    assert(split_at_char(after_prefix, '/') == Option::Some(
        (name, tag + seek_args(l.pag()) + numbers),
    ));

    let rest = tag + seek_args(l.pag()) + numbers;
    let keyword = if forward {
        "after"@
    } else {
        "before"@
    };
    assert(seek_args(l.pag()) =~= seq!['?'] + keyword + seq!['='] + token);
    let query = keyword + seq!['='] + token + numbers;
    assert(rest =~= tag + seq!['?'] + query);
    assert(!tag.contains('?')) by {
        assert forall|i: int| 0 <= i < tag.len() implies tag[i] != '?' by {
            match l {
                Listing::Hot { .. } => assert(tag =~= "hot"@),
                Listing::New { .. } => assert(tag =~= "new"@),
                Listing::Rising { .. } => assert(tag =~= "rising"@),
                Listing::Sort { .. } => assert(tag =~= "sort"@),
                Listing::Random { .. } => assert(false),
            }
        }
    }
    lemma_split_at_separator(tag, '?', query);

    let anchored = token + numbers;
    assert(query =~= keyword + seq!['='] + anchored);
    assert(!keyword.contains('=')) by {
        assert forall|i: int| 0 <= i < keyword.len() implies keyword[i] != '=' by {}
    }
    lemma_split_at_separator(keyword, '=', anchored);
    assert(keyword == "after"@ <==> forward) by {
        if !forward {
            assert("after"@.len() == 5 && "before"@.len() == 6);
        }
    }

    assert(numbers =~= seq!['&'] + ("count="@ + crate::strutil::dec_str(l.pag().seen_count as int)
        + "&limit="@ + crate::strutil::dec_str(l.pag().limit as int) + "&show="@
        + l.pag().show_rules@)) by {
        reveal_strlit("count=");
        assert("&count="@ =~= seq!['&'] + "count="@);
    }
    let tail = "count="@ + crate::strutil::dec_str(l.pag().seen_count as int) + "&limit="@
        + crate::strutil::dec_str(l.pag().limit as int) + "&show="@ + l.pag().show_rules@;
    assert(anchored =~= token + seq!['&'] + tail);
    lemma_split_at_separator(token, '&', tail);
}

/// Law: parsing the endpoint URL of a `random` descriptor re-reads the
/// community and the tag, with no pagination.
pub proof fn lemma_random_endpoint_round_trip(l: Listing)
    requires
        l.is_random(),
        !l.sub_name().contains('/'),
    ensures
        parse_endpoint(endpoint_spec(l)) == Option::Some(
            EndpointParts {
                community: l.sub_name(),
                tag: l.tag_spec(),
                pagination: Option::None,
            },
        ),
{
    reveal_strlit("https://oauth.reddit.com");
    reveal_strlit("/r/");
    reveal_strlit("/");
    reveal_strlit("random");

    let s = endpoint_spec(l);
    let prefix = "https://oauth.reddit.com"@ + "/r/"@;
    let name = l.sub_name();
    let tag = l.tag_spec();
    assert(tag =~= "random"@);
    let after_prefix = name + seq!['/'] + tag;
    assert(s =~= prefix + after_prefix);
    assert(s.len() >= prefix.len());
    assert(s.take(prefix.len() as int) =~= prefix);
    assert(s.skip(prefix.len() as int) =~= after_prefix);
    lemma_split_at_separator(name, '/', tag);
    assert(split_at_char(tag, '?') is None) by {
        lemma_no_separator(tag, '?');
    }
}

/// A sequence without the separator does not split.
proof fn lemma_no_separator(s: Seq<char>, c: char)
    requires
        !s.contains(c),
    ensures
        split_at_char(s, c) is None,
    decreases s.len(),
{
    if s.len() > 0 {
        assert(s[0] != c);
        assert forall|i: int| 0 <= i < s.drop_first().len() implies s.drop_first()[i] != c by {
            assert(s.drop_first()[i] == s[i + 1]);
        }
        lemma_no_separator(s.drop_first(), c);
    }
}

} // verus!
