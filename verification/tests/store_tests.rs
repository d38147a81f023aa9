//! The blog-post store: round trips, latest-first listing, the page cap,
//! and the scheduler's persistence decision.

use egghead::pipeline::PipelineError;
use egghead::post::BlogPost;
use egghead::scheduler::{interval_secs, persist_outcome, Scheduler};
use egghead::store::{effective_limit, get_blog_post_by_id, get_latest_blog_posts,
    get_random_blog_post, save_blog_post, BlogStore, StoreError};

fn sample_post(tag: &str) -> BlogPost {
    BlogPost {
        id: None,
        timestamp: format!("2024-05-01T10:00:0{}Z", tag.len() % 10),
        content: format!("content {}", tag),
        location: format!("location {}", tag),
        activity: format!("activity {}", tag),
        image_url: format!("https://picsum.photos/seed/{}/1600/900", tag),
    }
}

#[test]
fn save_then_fetch_round_trips_field_for_field() {
    let mut store = BlogStore::new();
    let post = sample_post("alpha");
    let id = save_blog_post(&mut store, &post);
    assert_eq!(id, 1);
    let fetched = get_blog_post_by_id(&store, id).expect("saved post must be found");
    let mut expected = post;
    expected.id = Some(id);
    assert_eq!(fetched, expected);
}

#[test]
fn ids_are_assigned_in_order() {
    let mut store = BlogStore::new();
    assert_eq!(save_blog_post(&mut store, &sample_post("a")), 1);
    assert_eq!(save_blog_post(&mut store, &sample_post("b")), 2);
    assert_eq!(save_blog_post(&mut store, &sample_post("c")), 3);
    assert_eq!(store.count(), 3);
}

#[test]
fn missing_ids_are_not_found() {
    let mut store = BlogStore::new();
    save_blog_post(&mut store, &sample_post("a"));
    assert_eq!(get_blog_post_by_id(&store, 0).unwrap_err(), StoreError::NotFound);
    assert_eq!(get_blog_post_by_id(&store, 2).unwrap_err(), StoreError::NotFound);
    assert_eq!(get_blog_post_by_id(&store, -3).unwrap_err(), StoreError::NotFound);
}

#[test]
fn latest_posts_come_newest_first() {
    let mut store = BlogStore::new();
    for tag in ["a", "b", "c", "d", "e", "f", "g"] {
        save_blog_post(&mut store, &sample_post(tag));
    }
    let latest = get_latest_blog_posts(&store, 3);
    let ids: Vec<i64> = latest.iter().map(|p| p.id.unwrap()).collect();
    assert_eq!(ids, vec![7, 6, 5]);
    let all = get_latest_blog_posts(&store, 50);
    assert_eq!(all.len(), 7);
    assert_eq!(all[0].id, Some(7));
    assert_eq!(all[6].id, Some(1));
}

#[test]
fn the_page_size_is_capped_server_side() {
    assert_eq!(effective_limit(Some(500)), 100);
    assert_eq!(effective_limit(Some(100)), 100);
    assert_eq!(effective_limit(Some(5)), 5);
    assert_eq!(effective_limit(None), 10);
}

#[test]
fn random_post_comes_from_the_table() {
    let mut store = BlogStore::new();
    assert_eq!(get_random_blog_post(&store).unwrap_err(), StoreError::NotFound);
    save_blog_post(&mut store, &sample_post("only"));
    let got = get_random_blog_post(&store).expect("one post is enough");
    assert_eq!(got.id, Some(1));
    assert_eq!(got.content, "content only");
}

#[test]
fn a_failed_run_persists_nothing() {
    let mut store = BlogStore::new();
    let r = persist_outcome(&mut store, Err(PipelineError::FeedUnavailable));
    assert_eq!(r, None);
    assert_eq!(store.count(), 0);
}

#[test]
fn a_successful_run_persists_one_row() {
    let mut store = BlogStore::new();
    let r = persist_outcome(&mut store, Ok(sample_post("tick")));
    assert_eq!(r, Some(1));
    assert_eq!(store.count(), 1);
    let saved = get_blog_post_by_id(&store, 1).unwrap();
    assert_eq!(saved.content, "content tick");
}

#[test]
fn overlapping_ticks_are_skipped() {
    let mut s = Scheduler::new();
    assert!(s.begin_tick());
    assert!(!s.begin_tick());
    s.end_tick(true);
    assert!(s.begin_tick());
    s.end_tick(false);
    assert_eq!(s.saved, 1);
    assert_eq!(s.failed, 1);
    assert!(!s.running);
}

#[test]
fn the_tick_interval_is_in_seconds() {
    assert_eq!(interval_secs(20), 1200);
    assert_eq!(interval_secs(1), 60);
}
