//! The blog pipeline end to end: fallback policy, feed failures, and the
//! assembled record.

use egghead::pipeline::{generate_blog_post, pipeline_start, pipeline_step, stage_request,
    PipelineError, PipelineStage};
use egghead::llm::{extract_stage_text, location_prompt, activity_prompt, content_prompt,
    build_generate_request};
use egghead::feed::{extract_item_titles, fetch_guardian_headlines};
use egghead::post::get_picsum_image;

const FEED: &str = "<rss><channel><title>World news</title>\
<item><title>First headline</title></item>\
<item><title>Second headline</title></item>\
<item><title>Third headline</title></item>\
<item><title>Fourth headline</title></item></channel></rss>";

#[test]
fn malformed_location_body_falls_back() {
    let out = extract_stage_text("{\"done\":true}", "Sydney, Australia");
    assert_eq!(out, "Sydney, Australia");
}

#[test]
fn unparseable_body_falls_back() {
    let out = extract_stage_text("not json at all", "Enjoying the sun!");
    assert_eq!(out, "Enjoying the sun!");
}

#[test]
fn non_string_field_falls_back() {
    let out = extract_stage_text("{\"response\":42}", "fallback line");
    assert_eq!(out, "fallback line");
}

#[test]
fn well_formed_body_is_trimmed() {
    let out = extract_stage_text("{\"response\":\"  Paris, France \\n\"}", "Sydney, Australia");
    assert_eq!(out, "Paris, France");
}

#[test]
fn all_stages_malformed_still_produces_a_post() {
    let bad = "{\"oops\":1}";
    let post = generate_blog_post(Some(FEED), Some(bad), Some(bad), Some(bad), "2024-05-01T10:00:00Z")
        .expect("stages must not abort");
    assert_eq!(post.location, "Sydney, Australia");
    assert_eq!(post.activity, "Enjoying the sun!");
    assert_eq!(
        post.content,
        "Thinking about how technology connects us all and shapes our future. Always learning, always curious about what's next!"
    );
    assert_eq!(post.id, None);
    assert_eq!(post.timestamp, "2024-05-01T10:00:00Z");
}

#[test]
fn empty_feed_fails_fast() {
    let empty_feed = "<rss><channel><title>World news</title></channel></rss>";
    let good = "{\"response\":\"Paris\"}";
    let r = generate_blog_post(Some(empty_feed), Some(good), Some(good), Some(good), "t");
    assert_eq!(r.unwrap_err(), PipelineError::FeedUnavailable);
}

#[test]
fn missing_feed_fails_fast() {
    let good = "{\"response\":\"Paris\"}";
    let r = generate_blog_post(None, Some(good), Some(good), Some(good), "t");
    assert_eq!(r.unwrap_err(), PipelineError::FeedUnavailable);
}

#[test]
fn missing_stage_response_is_a_network_error() {
    let good = "{\"response\":\"Paris\"}";
    let r = generate_blog_post(Some(FEED), Some(good), None, Some(good), "t");
    assert_eq!(r.unwrap_err(), PipelineError::NetworkError);
}

#[test]
fn successful_run_assembles_the_record() {
    let post = generate_blog_post(
        Some(FEED),
        Some("{\"response\":\" Lisbon, Portugal \"}"),
        Some("{\"response\":\"Sampling pastries\"}"),
        Some("{\"response\":\"Dear readers...\"}"),
        "2024-05-01T10:00:00Z",
    )
    .expect("run must succeed");
    assert_eq!(post.location, "Lisbon, Portugal");
    assert_eq!(post.activity, "Sampling pastries");
    assert_eq!(post.content, "Dear readers...");
    assert_eq!(post.image_url, "https://picsum.photos/seed/lisbon,-portugal/1600/900");
}

#[test]
fn feed_titles_come_in_document_order_capped_at_three() {
    let titles = fetch_guardian_headlines(FEED);
    assert_eq!(titles, vec!["First headline", "Second headline", "Third headline"]);
}

#[test]
fn extractor_reads_all_titles_when_asked() {
    let titles = extract_item_titles(FEED, 10);
    assert_eq!(titles.len(), 4);
    assert_eq!(titles[3], "Fourth headline");
}

#[test]
fn step_machine_builds_context_from_headlines() {
    let s1 = pipeline_step(pipeline_start(), Some(FEED), "t");
    match s1 {
        PipelineStage::AwaitLocation { ref context } => {
            assert_eq!(context, "First headline\nSecond headline\nThird headline");
        }
        _ => panic!("expected the location stage"),
    }
    let req = stage_request(&s1).expect("location stage sends a request");
    assert_eq!(
        req,
        "{\"model\":\"aquiffoo/aquif-moe-400m\",\"prompt\":\"Pick an interesting city somewhere in the world. Reply with just the location:\",\"stream\":false,\"temperature\":0.9,\"num_predict\":32}"
    );
}

#[test]
fn stage_prompts_embed_their_inputs() {
    assert_eq!(
        location_prompt(),
        "Pick an interesting city somewhere in the world. Reply with just the location:"
    );
    assert_eq!(activity_prompt("Oslo"), "You're in Oslo. What are you doing right now?");
    let c = content_prompt("headline one\nheadline two");
    assert!(c.starts_with("You're a tech enthusiast blogger named Egghead."));
    assert!(c.contains("headline one\nheadline two"));
    assert!(c.ends_with("Do not use any markdown formatting or emojis."));
}

#[test]
fn request_builder_escapes_the_prompt() {
    let req = build_generate_request("say \"hi\"\n", "1.35", 256);
    assert_eq!(
        req,
        "{\"model\":\"aquiffoo/aquif-moe-400m\",\"prompt\":\"say \\\"hi\\\"\\n\",\"stream\":false,\"temperature\":1.35,\"num_predict\":256}"
    );
    let parsed: serde_json::Value = serde_json::from_str(&req).expect("request must be valid JSON");
    assert_eq!(parsed["prompt"], serde_json::Value::String("say \"hi\"\n".to_string()));
}

#[test]
fn picsum_url_is_derived_from_the_location() {
    assert_eq!(
        get_picsum_image("New York City"),
        "https://picsum.photos/seed/new-york-city/1600/900"
    );
    assert_eq!(get_picsum_image("Oslo"), "https://picsum.photos/seed/oslo/1600/900");
}
