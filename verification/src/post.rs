//! The blog-post record and the deterministic placeholder-image URL that is
//! derived from a post's location.

use vstd::prelude::*;
use crate::text::lower_of;
use crate::text::lowercase;
use crate::text::push_char;

verus! {

/// One generated blog entry. `id` is assigned by the store on save;
/// `timestamp` holds the creation time as ISO-8601 text.
#[derive(Debug)]
pub struct BlogPost {
    pub id: Option<i64>,
    pub timestamp: String,
    pub content: String,
    pub location: String,
    pub activity: String,
    pub image_url: String,
}

impl BlogPost {
    /// A field-for-field copy.
    pub fn duplicate(&self) -> (r: BlogPost)
        ensures
            r == *self,
    {
        BlogPost {
            id: if let Some(v) = self.id {
                Some(v)
            } else {
                None
            },
            timestamp: self.timestamp.clone(),
            content: self.content.clone(),
            location: self.location.clone(),
            activity: self.activity.clone(),
            image_url: self.image_url.clone(),
        }
    }
}

impl PartialEq for BlogPost {
    fn eq(&self, other: &BlogPost) -> (r: bool) {
        let ids_equal = match (self.id, other.id) {
            (None, None) => true,
            (Some(a), Some(b)) => a == b,
            _ => false,
        };
        ids_equal && self.timestamp == other.timestamp && self.content == other.content
            && self.location == other.location && self.activity == other.activity
            && self.image_url == other.image_url
    }
}

impl vstd::std_specs::cmp::PartialEqSpecImpl for BlogPost {
    open spec fn obeys_eq_spec() -> bool {
        true
    }

    open spec fn eq_spec(&self, other: &BlogPost) -> bool {
        self.id == other.id && self.timestamp@ == other.timestamp@ && self.content@
            == other.content@ && self.location@ == other.location@ && self.activity@
            == other.activity@ && self.image_url@ == other.image_url@
    }
}

/// The seed with every space replaced by a dash.
pub open spec fn dashed(s: Seq<char>) -> Seq<char> {
    s.map_values(|c: char| if c == ' ' { '-' } else { c })
}

/// The placeholder-image URL for a seed: spaces become dashes, the seed is
/// lowercased, and the fixed 1600x900 frame is requested.
pub open spec fn spec_picsum_url(seed: Seq<char>) -> Seq<char> {
    "https://picsum.photos/seed/"@ + lower_of(dashed(seed)) + "/1600/900"@
}

fn replace_spaces(s: &str) -> (r: String)
    ensures
        r@ == dashed(s@),
{
    let len = s.unicode_len();
    let mut out = String::new();
    let mut i: usize = 0;
    while i < len
        invariant
            len == s@.len(),
            i <= len,
            out@ == dashed(s@.take(i as int)),
        decreases len - i,
    {
        let c = s.get_char(i);
        let replaced = if c == ' ' {
            '-'
        } else {
            c
        };
        push_char(&mut out, replaced);
        proof {
            assert(out@ =~= dashed(s@.take(i + 1)));
        }
        i = i + 1;
    }
    proof {
        assert(s@.take(len as int) =~= s@);
    }
    out
}

/// Builds the deterministic placeholder-image URL for a seed, so the same
/// location always yields the same image.
pub fn get_picsum_image(seed: &str) -> (r: String)
    ensures
        r@ == spec_picsum_url(seed@),
{
    let cleaned = replace_spaces(seed);
    let lowered = lowercase(cleaned.as_str());
    let mut url = String::from_str("https://picsum.photos/seed/");
    url.append(lowered.as_str());
    url.append("/1600/900");
    proof {
        assert(url@ =~= spec_picsum_url(seed@));
    }
    url
}

/// Fills a fresh, not yet persisted post: the image URL is derived from the
/// location, the id is left for the store to assign.
pub fn assemble_blog_post(now: &str, content: String, location: String, activity: String) -> (r:
    BlogPost)
    ensures
        r.id is None,
        r.timestamp@ == now@,
        r.content == content,
        r.location == location,
        r.activity == activity,
        r.image_url@ == spec_picsum_url(location@),
{
    let image_url = get_picsum_image(location.as_str());
    BlogPost {
        id: None,
        timestamp: String::from_str(now),
        content,
        location,
        activity,
        image_url,
    }
}

} // verus!
