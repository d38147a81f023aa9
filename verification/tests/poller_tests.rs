//! The job poller: bounded polling, terminal states, URL formatting, and
//! the fakeyou helpers.

use egghead::poller::{asset_url, await_completion, build_inference_request, classify_report,
    find_voice_token, fuzzy_search_voices, job_status_url, parse_poll_report, parse_voice_list,
    PollError, PollOutcome, PollReport, Voice};

fn pending() -> PollReport {
    PollReport { status: Some("pending".to_string()), audio_path: None }
}

fn success(path: &str) -> PollReport {
    PollReport {
        status: Some("complete_success".to_string()),
        audio_path: Some(path.to_string()),
    }
}

fn dead() -> PollReport {
    PollReport { status: Some("dead".to_string()), audio_path: None }
}

#[test]
fn pending_n_times_then_success_takes_n_plus_one_polls() {
    let n = 4;
    let mut reports: Vec<PollReport> = (0..n).map(|_| pending()).collect();
    reports.push(success("/fakeyou/audio.wav"));
    for _ in 0..3 {
        reports.push(pending());
    }
    let (result, polls) = await_completion(&reports, 8);
    assert_eq!(polls, n + 1);
    assert_eq!(
        result.unwrap(),
        "https://storage.googleapis.com/vocodes-public/fakeyou/audio.wav"
    );
}

#[test]
fn immediate_success_takes_one_poll() {
    let reports = vec![success("/a.wav"), pending()];
    let (result, polls) = await_completion(&reports, 2);
    assert_eq!(polls, 1);
    assert_eq!(result.unwrap(), "https://storage.googleapis.com/vocodes-public/a.wav");
}

#[test]
fn never_terminal_times_out_after_the_budget() {
    let reports: Vec<PollReport> = (0..10).map(|_| pending()).collect();
    let (result, polls) = await_completion(&reports, 6);
    assert_eq!(polls, 6);
    assert_eq!(result.unwrap_err(), PollError::Timeout);
}

#[test]
fn definitive_failure_stops_polling() {
    let reports = vec![pending(), dead(), success("/late.wav")];
    let (result, polls) = await_completion(&reports, 3);
    assert_eq!(polls, 2);
    assert_eq!(result.unwrap_err(), PollError::JobFailed);
}

#[test]
fn success_without_a_path_keeps_polling() {
    let no_path = PollReport {
        status: Some("complete_success".to_string()),
        audio_path: None,
    };
    assert!(matches!(classify_report(&no_path), PollOutcome::Pending));
    assert!(matches!(classify_report(&pending()), PollOutcome::Pending));
    assert!(matches!(classify_report(&dead()), PollOutcome::Failed));
    match classify_report(&success("/x.wav")) {
        PollOutcome::Ready { path } => assert_eq!(path, "/x.wav"),
        _ => panic!("expected a ready outcome"),
    }
}

#[test]
fn poll_report_is_read_from_the_state_object() {
    let body = "{\"success\":true,\"state\":{\"job_token\":\"J1\",\"status\":\"complete_success\",\
                \"maybe_public_bucket_wav_audio_path\":\"/tts/out.wav\"}}";
    let report = parse_poll_report(body);
    assert_eq!(report.status.as_deref(), Some("complete_success"));
    assert_eq!(report.audio_path.as_deref(), Some("/tts/out.wav"));
    let sparse = parse_poll_report("{\"success\":true}");
    assert_eq!(sparse.status, None);
    assert_eq!(sparse.audio_path, None);
}

#[test]
fn urls_are_formatted_around_their_fragments() {
    assert_eq!(
        asset_url("/vocodes/audio.wav"),
        "https://storage.googleapis.com/vocodes-public/vocodes/audio.wav"
    );
    assert_eq!(job_status_url("JTOK:123"), "https://api.fakeyou.com/tts/job/JTOK:123");
}

#[test]
fn voice_lookup_returns_the_first_exact_title_match() {
    let voices = vec![
        Voice { model_token: "TM:1".to_string(), title: "Gruff Narrator".to_string() },
        Voice { model_token: "TM:2".to_string(), title: "Egghead".to_string() },
        Voice { model_token: "TM:3".to_string(), title: "Egghead".to_string() },
    ];
    assert_eq!(find_voice_token(&voices, "Egghead").as_deref(), Some("TM:2"));
    assert_eq!(find_voice_token(&voices, "Nobody"), None);
}

#[test]
fn voice_list_is_parsed_from_the_catalog_response() {
    let body = "{\"success\":true,\"models\":[\
        {\"model_token\":\"TM:1\",\"title\":\"Gruff Narrator\"},\
        {\"model_token\":\"TM:2\",\"title\":\"Egghead\"}]}";
    let voices = parse_voice_list(body).expect("catalog must parse");
    assert_eq!(voices.len(), 2);
    assert_eq!(voices[1].model_token, "TM:2");
    assert_eq!(voices[1].title, "Egghead");
    assert!(parse_voice_list("{\"success\":false}").is_none());
}

#[test]
fn inference_request_carries_a_fresh_token() {
    let req = build_inference_request("hello there", "TM:2");
    assert!(req.starts_with("{\"inference_text\":\"hello there\",\"tts_model_token\":\"TM:2\",\"uuid_idempotency_token\":\""));
    assert!(req.ends_with("\"}"));
    let parsed: serde_json::Value = serde_json::from_str(&req).expect("payload must be valid JSON");
    let token = parsed["uuid_idempotency_token"].as_str().unwrap();
    assert_eq!(token.len(), 36);
    let again = build_inference_request("hello there", "TM:2");
    assert_ne!(req, again);
}

#[test]
fn fuzzy_search_lists_the_closest_titles_first() {
    let titles: Vec<String> = vec![
        "kolbasobulko".to_string(),
        "sandvicho".to_string(),
        "domo".to_string(),
        "emuo".to_string(),
        "fabo".to_string(),
    ];
    let result = fuzzy_search_voices("domo", &titles);
    let lines: Vec<&str> = result.split('\n').collect();
    assert_eq!(lines.len(), 5);
    assert_eq!(lines[0], "domo");
}
