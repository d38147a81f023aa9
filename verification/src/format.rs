//! The chat command that shows blog posts: its argument handling and the
//! exact texts it relays.

use vstd::prelude::*;
use crate::post::BlogPost;
use crate::store::BlogStore;
use crate::store::get_blog_post_by_id;
use crate::store::get_latest_blog_posts;
use crate::store::spec_get;
use crate::store::spec_latest;
use crate::text::i64_to_string;
use crate::text::parse_i64;
use crate::text::spec_decimal_i64;
use crate::text::spec_parse_i64;

verus! {

/// The id a post is shown under: its assigned id, zero when unassigned.
pub open spec fn spec_shown_id(p: BlogPost) -> int {
    match p.id {
        Some(i) => i as int,
        None => 0,
    }
}

/// One block of the latest-posts listing.
pub open spec fn spec_post_block(p: BlogPost) -> Seq<char> {
    "**Post #"@ + spec_decimal_i64(spec_shown_id(p)) + "** ("@ + p.timestamp@ + ")\n📍 "@
        + p.location@ + "\n💭 "@ + p.activity@ + "\n🖼️ "@ + p.image_url@ + "\n\n"@
}

/// The blocks of the listing, in the given order.
pub open spec fn spec_post_blocks(posts: Seq<BlogPost>) -> Seq<char>
    decreases posts.len(),
{
    if posts.len() == 0 {
        Seq::empty()
    } else {
        spec_post_blocks(posts.drop_last()) + spec_post_block(posts.last())
    }
}

/// The whole latest-posts listing.
pub open spec fn spec_posts_list(posts: Seq<BlogPost>) -> Seq<char> {
    "**Latest Blog Posts:**\n\n"@ + spec_post_blocks(posts)
}

/// A single post, shown in full.
pub open spec fn spec_single_post(p: BlogPost) -> Seq<char> {
    "**Blog Post #"@ + spec_decimal_i64(spec_shown_id(p)) + "**\n\n**When:** "@ + p.timestamp@
        + "\n\n**What I'm passionate about:**\n"@ + p.content@ + "\n\n**Where I am:** "@
        + p.location@ + "\n\n**What I'm doing:** "@ + p.activity@ + "\n\n**Photo:** "@
        + p.image_url@
}

/// What the blog command answers: with no argument or `latest`, the newest
/// five posts — or the empty-store line; with a number, that post or a
/// not-found line; anything else, the usage line.
pub open spec fn spec_blog_response(rows: Seq<BlogPost>, args: Seq<Seq<char>>) -> Seq<char> {
    if args.len() == 0 || args[0] == "latest"@ {
        if spec_latest(rows, 5).len() == 0 {
            "No blog posts yet! Wait for the next generation cycle."@
        } else {
            spec_posts_list(spec_latest(rows, 5))
        }
    } else {
        match spec_parse_i64(args[0]) {
            Some(id) => match spec_get(rows, id) {
                Some(p) => spec_single_post(p),
                None => "Blog post #"@ + spec_decimal_i64(id) + " not found."@,
            },
            None => "Usage: `e.blog [id|latest]`"@,
        }
    }
}

/// The help message the bot answers with.
pub fn help_text() -> (r: String)
    ensures
        r@
            == "I'm egghead, the workd's smartest computer. My vast processing resources facilitate understanding beyond human capacity.\n\n*USAGE*\n`e.help` - Displays this help message.\n`ping` - Pongs back\n`ask <prompt>` - Responds to prompt\n`blog` - Shows a random blog post from Egghead's life\n`tldr` - Summarizes stuff\n\nReport serious issues to `toaster repairguy#1101`."@,
{
    String::from_str(
        "I'm egghead, the workd's smartest computer. My vast processing resources facilitate understanding beyond human capacity.\n\n*USAGE*\n`e.help` - Displays this help message.\n`ping` - Pongs back\n`ask <prompt>` - Responds to prompt\n`blog` - Shows a random blog post from Egghead's life\n`tldr` - Summarizes stuff\n\nReport serious issues to `toaster repairguy#1101`.",
    )
}

/// Formats one block of the latest-posts listing.
pub fn format_post_block(p: &BlogPost) -> (r: String)
    ensures
        r@ == spec_post_block(*p),
{
    let shown_id: i64 = match p.id {
        Some(i) => i,
        None => 0,
    };
    let mut out = String::from_str("**Post #");
    let id_text = i64_to_string(shown_id);
    out.append(id_text.as_str());
    out.append("** (");
    out.append(p.timestamp.as_str());
    out.append(")\n📍 ");
    out.append(p.location.as_str());
    out.append("\n💭 ");
    out.append(p.activity.as_str());
    out.append("\n🖼️ ");
    out.append(p.image_url.as_str());
    out.append("\n\n");
    proof {
        assert(out@ =~= spec_post_block(*p));
    }
    out
}

/// Formats the latest-posts listing.
pub fn format_posts_list(posts: &Vec<BlogPost>) -> (r: String)
    ensures
        r@ == spec_posts_list(posts@),
{
    let mut out = String::from_str("**Latest Blog Posts:**\n\n");
    let mut i: usize = 0;
    while i < posts.len()
        invariant
            i <= posts@.len(),
            out@ == "**Latest Blog Posts:**\n\n"@ + spec_post_blocks(posts@.take(i as int)),
        decreases posts@.len() - i,
    {
        let block = format_post_block(&posts[i]);
        out.append(block.as_str());
        proof {
            assert(posts@.take(i + 1).drop_last() =~= posts@.take(i as int));
            assert(posts@.take(i + 1).last() == posts@[i as int]);
            assert(out@ =~= "**Latest Blog Posts:**\n\n"@ + spec_post_blocks(posts@.take(i + 1)));
        }
        i = i + 1;
    }
    proof {
        assert(posts@.take(posts@.len() as int) =~= posts@);
    }
    out
}

/// Formats a single post in full.
pub fn format_single_post(p: &BlogPost) -> (r: String)
    ensures
        r@ == spec_single_post(*p),
{
    let shown_id: i64 = match p.id {
        Some(i) => i,
        None => 0,
    };
    let mut out = String::from_str("**Blog Post #");
    let id_text = i64_to_string(shown_id);
    out.append(id_text.as_str());
    out.append("**\n\n**When:** ");
    out.append(p.timestamp.as_str());
    out.append("\n\n**What I'm passionate about:**\n");
    out.append(p.content.as_str());
    out.append("\n\n**Where I am:** ");
    out.append(p.location.as_str());
    out.append("\n\n**What I'm doing:** ");
    out.append(p.activity.as_str());
    out.append("\n\n**Photo:** ");
    out.append(p.image_url.as_str());
    proof {
        assert(out@ =~= spec_single_post(*p));
    }
    out
}

/// Answers the blog command for the given arguments.
pub fn blog_command_response(store: &BlogStore, args: &Vec<String>) -> (r: String)
    requires
        store.wf(),
    ensures
        r@ == spec_blog_response(store@, args.deep_view()),
{
    let latest_word = String::from_str("latest");
    let ghost args_view = args.deep_view();
    if args.len() == 0 || args[0] == latest_word {
        proof {
            if args@.len() > 0 {
                assert(args_view[0] == args@[0]@);
            }
        }
        let latest = get_latest_blog_posts(store, 5);
        if latest.len() == 0 {
            String::from_str("No blog posts yet! Wait for the next generation cycle.")
        } else {
            format_posts_list(&latest)
        }
    } else {
        proof {
            assert(args_view[0] == args@[0]@);
        }
        match parse_i64(args[0].as_str()) {
            Some(id) => match get_blog_post_by_id(store, id) {
                Ok(p) => format_single_post(&p),
                Err(_) => {
                    let mut msg = String::from_str("Blog post #");
                    let id_text = i64_to_string(id);
                    msg.append(id_text.as_str());
                    msg.append(" not found.");
                    proof {
                        assert(msg@ =~= "Blog post #"@ + spec_decimal_i64(id as int)
                            + " not found."@);
                    }
                    msg
                },
            },
            None => String::from_str("Usage: `e.blog [id|latest]`"),
        }
    }
}

} // verus!
