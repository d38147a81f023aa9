//! Reading item titles out of a syndication feed. The feed arrives as text;
//! a title is whatever stands between the first `<title>` and `</title>`
//! pair after each `<item>` tag, taken in document order.

use vstd::prelude::*;

verus! {

/// Whether `pat` occurs in `s` at position `i`.
pub open spec fn is_match(s: Seq<char>, pat: Seq<char>, i: int) -> bool {
    &&& 0 <= i
    &&& i + pat.len() <= s.len()
    &&& s.subrange(i, i + pat.len()) == pat
}

/// The first position at or after `from` where `pat` occurs in `s`.
pub open spec fn spec_find(s: Seq<char>, pat: Seq<char>, from: int) -> Option<int>
    decreases s.len() - from,
    via spec_find_decreases
{
    if from + pat.len() > s.len() {
        None
    } else if is_match(s, pat, from) {
        Some(from)
    } else {
        spec_find(s, pat, from + 1)
    }
}

#[via_fn]
proof fn spec_find_decreases(s: Seq<char>, pat: Seq<char>, from: int) {
    if from + pat.len() <= s.len() && !is_match(s, pat, from) && pat.len() == 0 && from >= 0 {
        assert(s.subrange(from, from + pat.len()) =~= pat);
    }
}

fn matches_at(s: &str, pat: &str, i: usize) -> (r: bool)
    requires
        i + pat@.len() <= s@.len(),
    ensures
        r == is_match(s@, pat@, i as int),
{
    // binding the length tells the verifier the view fits in usize
    let _slen = s.unicode_len();
    let plen = pat.unicode_len();
    let mut j: usize = 0;
    while j < plen
        invariant
            plen == pat@.len(),
            i + plen <= s@.len(),
            s@.len() <= usize::MAX,
            j <= plen,
            forall|k: int| 0 <= k < j ==> s@[i + k] == pat@[k],
        decreases plen - j,
    {
        if s.get_char(i + j) != pat.get_char(j) {
            proof {
                assert(s@.subrange(i as int, i + pat@.len())[j as int] == s@[i + j]);
            }
            return false;
        }
        j = j + 1;
    }
    proof {
        assert(s@.subrange(i as int, i + pat@.len()) =~= pat@);
    }
    true
}

/// Finds the first occurrence of `pat` in `s` at or after `from`.
pub fn find_from(s: &str, pat: &str, from: usize) -> (r: Option<usize>)
    requires
        from <= s@.len(),
    ensures
        match r {
            Some(i) => {
                &&& from <= i
                &&& is_match(s@, pat@, i as int)
                &&& spec_find(s@, pat@, from as int) == Some(i as int)
            },
            None => spec_find(s@, pat@, from as int) is None,
        },
{
    let slen = s.unicode_len();
    let plen = pat.unicode_len();
    if plen == 0 {
        proof {
            assert(s@.subrange(from as int, from as int + pat@.len()) =~= pat@);
        }
        return Some(from);
    }
    if plen > slen || from > slen - plen {
        return None;
    }
    let mut i: usize = from;
    while i <= slen - plen
        invariant
            slen == s@.len(),
            plen == pat@.len(),
            1 <= plen <= slen,
            from <= i,
            i <= slen - plen + 1,
            spec_find(s@, pat@, from as int) == spec_find(s@, pat@, i as int),
        decreases slen - i,
    {
        if matches_at(s, pat, i) {
            return Some(i);
        }
        i = i + 1;
    }
    None
}

/// Up to `max` item titles of the feed, in document order: for each `<item>`
/// tag, the text between the next `<title>` and `</title>` pair; extraction
/// stops at the first item without such a pair.
pub open spec fn spec_titles(s: Seq<char>, from: int, max: nat) -> Seq<Seq<char>>
    decreases max,
{
    if max == 0 {
        Seq::empty()
    } else {
        match spec_find(s, "<item>"@, from) {
            None => Seq::empty(),
            Some(it) => match spec_find(s, "<title>"@, it + 6) {
                None => Seq::empty(),
                Some(op) => match spec_find(s, "</title>"@, op + 7) {
                    None => Seq::empty(),
                    Some(cl) => seq![s.subrange(op + 7, cl)] + spec_titles(
                        s,
                        cl + 8,
                        (max - 1) as nat,
                    ),
                },
            },
        }
    }
}

fn titles_from(s: &str, from: usize, max: usize) -> (r: Vec<String>)
    requires
        from <= s@.len(),
    ensures
        r.deep_view() == spec_titles(s@, from as int, max as nat),
    decreases max,
{
    proof {
        reveal_strlit("<item>");
        reveal_strlit("<title>");
        reveal_strlit("</title>");
    }
    // binding the length tells the verifier the view fits in usize
    let _slen = s.unicode_len();
    if max == 0 {
        let r: Vec<String> = Vec::new();
        proof {
            assert(r.deep_view() =~= spec_titles(s@, from as int, max as nat));
        }
        return r;
    }
    match find_from(s, "<item>", from) {
        None => {
            let r: Vec<String> = Vec::new();
            proof {
                assert(r.deep_view() =~= spec_titles(s@, from as int, max as nat));
            }
            r
        },
        Some(it) => match find_from(s, "<title>", it + 6) {
            None => {
                let r: Vec<String> = Vec::new();
                proof {
                    assert(r.deep_view() =~= spec_titles(s@, from as int, max as nat));
                }
                r
            },
            Some(op) => {
                let start = op + 7;
                match find_from(s, "</title>", start) {
                    None => {
                        let r: Vec<String> = Vec::new();
                        proof {
                            assert(r.deep_view() =~= spec_titles(s@, from as int, max as nat));
                        }
                        r
                    },
                    Some(cl) => {
                        let title = String::from_str(s.substring_char(start, cl));
                        let ghost rest_view = spec_titles(s@, cl + 8, (max - 1) as nat);
                        let mut rest = titles_from(s, cl + 8, max - 1);
                        rest.insert(0, title);
                        proof {
                            assert(rest.deep_view() =~= seq![s@.subrange(start as int, cl as int)]
                                + rest_view);
                        }
                        rest
                    },
                }
            },
        },
    }
}

/// Reads up to `max` item titles out of a feed, in document order.
pub fn extract_item_titles(feed: &str, max: usize) -> (r: Vec<String>)
    ensures
        r.deep_view() == spec_titles(feed@, 0, max as nat),
{
    titles_from(feed, 0, max)
}

/// Reads up to three item titles out of the headline feed, as the blog
/// pipeline consumes them.
pub fn fetch_guardian_headlines(feed: &str) -> (r: Vec<String>)
    ensures
        r.deep_view() == spec_titles(feed@, 0, 3),
{
    titles_from(feed, 0, 3)
}

} // verus!
