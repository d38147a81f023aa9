//! The chat surface's compute: the blog command, the chat request and
//! response, the gallery, message links, and the small relay flows.

use egghead::api::{error_body, rejection_reply, ApiRejection};
use egghead::chat::{build_chat_request, extract_chat_text};
use egghead::encode::encode_image_to_base64;
use egghead::fetcher::{get_latest_hn_comment, get_random_headline_from_rss_link,
    get_wikipedia_summary, wikipedia_summary_url};
use egghead::format::{blog_command_response, format_single_post, help_text};
use egghead::images::{Image, Images};
use egghead::links::MessageLink;
use egghead::post::BlogPost;
use egghead::store::{save_blog_post, BlogStore};

fn seeded_store() -> BlogStore {
    let mut store = BlogStore::new();
    for tag in ["a", "b", "c"] {
        let post = BlogPost {
            id: None,
            timestamp: "2024-05-01T10:00:00Z".to_string(),
            content: format!("content {}", tag),
            location: format!("location {}", tag),
            activity: format!("activity {}", tag),
            image_url: format!("https://picsum.photos/seed/{}/1600/900", tag),
        };
        save_blog_post(&mut store, &post);
    }
    store
}

#[test]
fn blog_command_lists_latest_posts() {
    let store = seeded_store();
    let out = blog_command_response(&store, &vec![]);
    assert!(out.starts_with("**Latest Blog Posts:**\n\n**Post #3** (2024-05-01T10:00:00Z)\n"));
    assert!(out.contains("**Post #2**"));
    assert!(out.contains("**Post #1**"));
    let same = blog_command_response(&store, &vec!["latest".to_string()]);
    assert_eq!(out, same);
}

#[test]
fn blog_command_on_an_empty_store_says_so() {
    let store = BlogStore::new();
    let out = blog_command_response(&store, &vec![]);
    assert_eq!(out, "No blog posts yet! Wait for the next generation cycle.");
}

#[test]
fn blog_command_shows_one_post_by_id() {
    let store = seeded_store();
    let out = blog_command_response(&store, &vec!["2".to_string()]);
    assert_eq!(
        out,
        "**Blog Post #2**\n\n**When:** 2024-05-01T10:00:00Z\n\n**What I'm passionate about:**\ncontent b\n\n**Where I am:** location b\n\n**What I'm doing:** activity b\n\n**Photo:** https://picsum.photos/seed/b/1600/900"
    );
}

#[test]
fn blog_command_reports_missing_ids_and_bad_arguments() {
    let store = seeded_store();
    assert_eq!(blog_command_response(&store, &vec!["9".to_string()]), "Blog post #9 not found.");
    assert_eq!(blog_command_response(&store, &vec!["-3".to_string()]), "Blog post #-3 not found.");
    assert_eq!(
        blog_command_response(&store, &vec!["soonest".to_string()]),
        "Usage: `e.blog [id|latest]`"
    );
}

#[test]
fn single_post_format_uses_zero_for_unassigned_ids() {
    let post = BlogPost {
        id: None,
        timestamp: "t".to_string(),
        content: "c".to_string(),
        location: "l".to_string(),
        activity: "a".to_string(),
        image_url: "u".to_string(),
    };
    assert!(format_single_post(&post).starts_with("**Blog Post #0**"));
}

#[test]
fn help_text_names_the_bot() {
    assert!(help_text().contains("`e.help` - Displays this help message."));
}

#[test]
fn chat_request_embeds_system_history_and_user_turns() {
    let history = vec!["{\"role\":\"assistant\",\"content\":\"earlier\"}".to_string()];
    let req = build_chat_request("You are Egghead.", "What now?", &history, &vec![]);
    assert_eq!(
        req,
        "{\"model\":\"riven/smolvlm\",\"messages\":[{\"role\":\"system\",\"content\":\"You are Egghead.\"},{\"role\":\"assistant\",\"content\":\"earlier\"},{\"role\":\"user\",\"content\":\"What now?\"}],\"stream\":false}"
    );
    let parsed: serde_json::Value = serde_json::from_str(&req).expect("request must be valid JSON");
    assert_eq!(parsed["messages"].as_array().unwrap().len(), 3);
}

#[test]
fn chat_request_attaches_images_as_data_urls() {
    let image_b64 = encode_image_to_base64(&vec![255u8, 216, 255]);
    let req = build_chat_request("describe", "what is this?", &vec![], &vec![image_b64.clone()]);
    let parsed: serde_json::Value = serde_json::from_str(&req).expect("request must be valid JSON");
    let content = parsed["messages"][1]["content"].as_array().unwrap();
    assert_eq!(content.len(), 2);
    assert_eq!(content[0]["text"], "what is this?");
    assert_eq!(
        content[1]["image_url"]["url"],
        serde_json::Value::String(format!("data:image/jpeg;base64,{}", image_b64))
    );
}

#[test]
fn chat_response_paths() {
    assert_eq!(
        extract_chat_text("{\"choices\":[{\"message\":{\"content\":\"All systems go.\"}}]}"),
        "All systems go."
    );
    assert_eq!(
        extract_chat_text("{\"error\":\"model overloaded\"}"),
        "Error from API: \"model overloaded\""
    );
    assert_eq!(extract_chat_text("{}"), "Prompt machine broke - no response field");
    assert_eq!(extract_chat_text("garbage"), "Prompt machine broke - no response field");
}

#[test]
fn base64_matches_the_standard_alphabet() {
    assert_eq!(encode_image_to_base64(&b"hello".to_vec()), "aGVsbG8=");
    assert_eq!(encode_image_to_base64(&vec![]), "");
}

#[test]
fn gallery_keeps_only_image_files_with_their_listing_ids() {
    let entries = vec![
        "/pics/a.jpg".to_string(),
        "/pics/readme.txt".to_string(),
        "/pics/b.jpeg".to_string(),
        "/pics/c.png".to_string(),
        "/pics/d.gif".to_string(),
    ];
    let images = Images::get_image_files(&entries, "Kun");
    assert_eq!(images.len(), 3);
    assert_eq!(images[0].file_name(), "a.jpg");
    assert_eq!(images[0].title(), "Kun");
    assert_eq!(images[0].path(), "/pics/a.jpg");
    assert_eq!(images[0].id(), 0);
    assert_eq!(images[1].file_name(), "b.jpeg");
    assert_eq!(images[1].id(), 2);
    assert_eq!(images[2].file_name(), "c.png");
    assert_eq!(images[2].id(), 3);
}

#[test]
fn choosing_from_the_gallery() {
    let empty: Vec<Image> = vec![];
    assert!(Images::choose_image(&empty).is_none());
    let entries = vec!["x.png".to_string()];
    let images = Images::get_image_files(&entries, "T");
    let picked = Images::choose_image(&images).expect("one image is enough");
    assert_eq!(picked.file_name(), "x.png");
}

#[test]
fn message_links_are_removed_when_deleted() {
    let mut links = MessageLink::new();
    links.link(10, 99);
    links.link(11, 100);
    assert_eq!(links.delete_if_linked(10), Some(99));
    assert_eq!(links.delete_if_linked(10), None);
    assert_eq!(links.delete_if_linked(12), None);
    assert_eq!(links.delete_if_linked(11), Some(100));
}

#[test]
fn wiki_urls_and_titles() {
    assert_eq!(
        wikipedia_summary_url(Some("Rust_(programming_language)")),
        "https://en.wikipedia.org/api/rest_v1/page/summary/Rust_(programming_language)"
    );
    assert_eq!(
        wikipedia_summary_url(None),
        "https://en.wikipedia.org/api/rest_v1/page/random/summary"
    );
    assert_eq!(get_wikipedia_summary("{\"title\":\"Rust\"}"), "Rust");
    assert_eq!(get_wikipedia_summary("{\"detail\":\"missing\"}"), "Unknown");
}

#[test]
fn random_headline_comes_from_the_feed() {
    let feed = "<rss><item><title>Only story</title></item></rss>";
    assert_eq!(get_random_headline_from_rss_link(feed).as_deref(), Some("Only story"));
    assert_eq!(get_random_headline_from_rss_link("<rss></rss>"), None);
}

#[test]
fn comment_snippets_are_capped_at_thirty_characters() {
    let hit = "{\"comment_text\":\"0123456789012345678901234567890123456789\"}";
    let hits: Vec<String> = (0..15).map(|_| hit.to_string()).collect();
    let body = format!("{{\"hits\":[{}]}}", hits.join(","));
    assert_eq!(get_latest_hn_comment(&body), "012345678901234567890123456789");
    assert_eq!(get_latest_hn_comment("{\"hits\":[]}"), "");
}

#[test]
fn api_rejections_map_to_status_and_body() {
    let (code, message) = rejection_reply(&ApiRejection::NotFound);
    assert_eq!((code, message.as_str()), (404, "Not Found"));
    let (code, message) = rejection_reply(&ApiRejection::Database);
    assert_eq!((code, message.as_str()), (500, "Database Error"));
    assert_eq!(error_body("Not Found", 404), "{\"error\":\"Not Found\",\"status\":404}");
}
