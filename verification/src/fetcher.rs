//! The small relay flows: a random headline out of a feed, a wiki summary
//! title, and a snippet of a recent comment.

use vstd::prelude::*;
use crate::chance::random_below;
use crate::feed::extract_item_titles;
use crate::feed::spec_titles;
use crate::jsonio::hit_comment_of;
use crate::jsonio::json_field_str;
use crate::jsonio::json_hit_comment;
use crate::jsonio::json_string_field;
use crate::text::prefix_chars;
use crate::text::spec_prefix;

verus! {

/// How many feed items the random-headline flow is willing to read.
pub open spec fn headline_scan_cap() -> nat {
    1000
}

/// Picks one of the feed's item titles at random; nothing when the feed has
/// no items.
pub fn get_random_headline_from_rss_link(feed: &str) -> (r: Option<String>)
    ensures
        match r {
            Some(t) => exists|i: int|
                0 <= i < spec_titles(feed@, 0, headline_scan_cap()).len() && t@ == spec_titles(
                    feed@,
                    0,
                    headline_scan_cap(),
                )[i],
            None => spec_titles(feed@, 0, headline_scan_cap()).len() == 0,
        },
{
    let titles = extract_item_titles(feed, 1000);
    if titles.len() == 0 {
        None
    } else {
        let index = random_below(titles.len());
        let picked = titles[index].clone();
        proof {
            assert(picked@ == spec_titles(feed@, 0, headline_scan_cap())[index as int]);
        }
        Some(picked)
    }
}

/// The summary endpoint for an article, or the random-summary endpoint when
/// none is named.
pub open spec fn spec_wiki_url(article: Option<Seq<char>>) -> Seq<char> {
    match article {
        Some(a) => "https://en.wikipedia.org/api/rest_v1/page/summary/"@ + a,
        None => "https://en.wikipedia.org/api/rest_v1/page/random/summary"@,
    }
}

/// Formats the summary endpoint URL.
pub fn wikipedia_summary_url(article: Option<&str>) -> (r: String)
    ensures
        r@ == spec_wiki_url(
            match article {
                Some(a) => Some(a@),
                None => None,
            },
        ),
{
    match article {
        Some(a) => {
            let mut url = String::from_str("https://en.wikipedia.org/api/rest_v1/page/summary/");
            url.append(a);
            proof {
                assert(url@ =~= "https://en.wikipedia.org/api/rest_v1/page/summary/"@ + a@);
            }
            url
        },
        None => String::from_str("https://en.wikipedia.org/api/rest_v1/page/random/summary"),
    }
}

/// The title the summary response carries, and "Unknown" when it has none.
pub open spec fn spec_wiki_title(body: Seq<char>) -> Seq<char> {
    match json_field_str(body, "title"@) {
        Some(t) => t,
        None => "Unknown"@,
    }
}

/// Reads the summary's title out of the response body.
pub fn get_wikipedia_summary(body: &str) -> (r: String)
    ensures
        r@ == spec_wiki_title(body@),
{
    match json_string_field(body, "title") {
        Some(t) => t,
        None => String::from_str("Unknown"),
    }
}

/// Relays a snippet of a recent comment: the first thirty characters of one
/// of the first fifteen hits, chosen at random, and empty text when that hit
/// carries no comment.
pub fn get_latest_hn_comment(body: &str) -> (r: String)
    ensures
        exists|i: int|
            0 <= i < 15 && r@ == spec_prefix(
                match #[trigger] hit_comment_of(body@, i) {
                    Some(c) => c,
                    None => Seq::empty(),
                },
                30,
            ),
{
    let index = random_below(15);
    match json_hit_comment(body, index) {
        Some(c) => {
            let snippet = prefix_chars(c.as_str(), 30);
            proof {
                assert(0 <= index < 15 && snippet@ == spec_prefix(
                    match hit_comment_of(body@, index as int) {
                        Some(c) => c,
                        None => Seq::empty(),
                    },
                    30,
                ));
            }
            snippet
        },
        None => {
            let empty = String::new();
            proof {
                assert(spec_prefix(Seq::empty(), 30) =~= Seq::<char>::empty());
                assert(0 <= index < 15 && empty@ == spec_prefix(
                    match hit_comment_of(body@, index as int) {
                        Some(c) => c,
                        None => Seq::empty(),
                    },
                    30,
                ));
            }
            empty
        },
    }
}

} // verus!
