//! The blog-generation pipeline: fetch headlines, ask for a location, an
//! activity and a post body in turn, then assemble the record. The feed is
//! essential — no headlines, no run — while the three generation stages
//! never abort: a malformed response only substitutes that stage's fallback
//! line. The network work happens outside; this module decides.

use vstd::prelude::*;
use crate::feed::spec_titles;
use crate::feed::fetch_guardian_headlines;
use crate::llm::spec_stage_text;
use crate::llm::spec_location_prompt;
use crate::llm::spec_activity_prompt;
use crate::llm::spec_content_prompt;
use crate::llm::spec_generate_request;
use crate::llm::extract_stage_text;
use crate::llm::location_prompt;
use crate::llm::activity_prompt;
use crate::llm::content_prompt;
use crate::llm::build_generate_request;
use crate::post::BlogPost;
use crate::post::assemble_blog_post;
use crate::post::spec_picsum_url;
use crate::text::joined_lines;
use crate::text::join_lines;

verus! {

/// Why a pipeline run stops early.
#[derive(Clone, Copy, PartialEq, Eq, Structural, Debug)]
pub enum PipelineError {
    /// The headline feed could not be fetched, or held no items.
    FeedUnavailable,
    /// A generation stage's request never came back.
    NetworkError,
}

/// Where a pipeline run stands: which response it waits for next, or how it
/// ended.
pub enum PipelineStage {
    /// Waiting for the headline feed.
    AwaitFeed,
    /// Waiting for the location stage's response.
    AwaitLocation { context: String },
    /// Waiting for the activity stage's response.
    AwaitActivity { context: String, location: String },
    /// Waiting for the post-body stage's response.
    AwaitContent { context: String, location: String, activity: String },
    /// The run produced a post.
    Done { post: BlogPost },
    /// The run stopped early.
    Failed { error: PipelineError },
}

/// The view of an optional response body.
pub open spec fn opt_view(o: Option<&str>) -> Option<Seq<char>> {
    match o {
        Some(s) => Some(s@),
        None => None,
    }
}

/// The headline context a feed body yields: its first three item titles
/// joined with newlines — and nothing when there are no items.
pub open spec fn spec_context(feed: Seq<char>) -> Option<Seq<char>> {
    if spec_titles(feed, 0, 3).len() == 0 {
        None
    } else {
        Some(joined_lines(spec_titles(feed, 0, 3)))
    }
}

/// The fallback lines of the three generation stages.
pub open spec fn spec_location_fallback() -> Seq<char> {
    "Sydney, Australia"@
}

pub open spec fn spec_activity_fallback() -> Seq<char> {
    "Enjoying the sun!"@
}

pub open spec fn spec_content_fallback() -> Seq<char> {
    "Thinking about how technology connects us all and shapes our future. Always learning, always curious about what's next!"@
}

/// What one pipeline run yields from the four response bodies: the location,
/// activity and post-body texts, or the error that stopped it. A missing or
/// empty feed is fatal; a missing generation response is a network failure;
/// a malformed generation response only falls back.
pub open spec fn spec_pipeline(
    feed: Option<Seq<char>>,
    location_body: Option<Seq<char>>,
    activity_body: Option<Seq<char>>,
    content_body: Option<Seq<char>>,
) -> Result<(Seq<char>, Seq<char>, Seq<char>), PipelineError> {
    match feed {
        None => Err(PipelineError::FeedUnavailable),
        Some(f) => match spec_context(f) {
            None => Err(PipelineError::FeedUnavailable),
            Some(_) => match (location_body, activity_body, content_body) {
                (Some(lb), Some(ab), Some(cb)) => Ok(
                    (
                        spec_stage_text(lb, spec_location_fallback()),
                        spec_stage_text(ab, spec_activity_fallback()),
                        spec_stage_text(cb, spec_content_fallback()),
                    ),
                ),
                _ => Err(PipelineError::NetworkError),
            },
        },
    }
}

/// Starts a pipeline run.
pub fn pipeline_start() -> (r: PipelineStage)
    ensures
        r is AwaitFeed,
{
    PipelineStage::AwaitFeed
}

/// Advances the run by one response. `response` is the body that came back
/// for the stage the run waits for, and `None` when nothing came back; `now`
/// is the creation time stamped on a finished post. Finished runs stay put.
pub fn pipeline_step(stage: PipelineStage, response: Option<&str>, now: &str) -> (r: PipelineStage)
    ensures
        match stage {
            PipelineStage::AwaitFeed => match response {
                None => r == (PipelineStage::Failed { error: PipelineError::FeedUnavailable }),
                Some(body) => match spec_context(body@) {
                    None => r == (PipelineStage::Failed {
                        error: PipelineError::FeedUnavailable,
                    }),
                    Some(ctx) => r matches PipelineStage::AwaitLocation { context }
                        && context@ == ctx,
                },
            },
            PipelineStage::AwaitLocation { context } => match response {
                None => r == (PipelineStage::Failed { error: PipelineError::NetworkError }),
                Some(body) => r matches PipelineStage::AwaitActivity {
                    context: c,
                    location,
                } && c == context && location@ == spec_stage_text(
                    body@,
                    spec_location_fallback(),
                ),
            },
            PipelineStage::AwaitActivity { context, location } => match response {
                None => r == (PipelineStage::Failed { error: PipelineError::NetworkError }),
                Some(body) => r matches PipelineStage::AwaitContent {
                    context: c,
                    location: l,
                    activity,
                } && c == context && l == location && activity@ == spec_stage_text(
                    body@,
                    spec_activity_fallback(),
                ),
            },
            PipelineStage::AwaitContent { context, location, activity } => match response {
                None => r == (PipelineStage::Failed { error: PipelineError::NetworkError }),
                Some(body) => r matches PipelineStage::Done { post } && post.id is None
                    && post.timestamp@ == now@ && post.location == location && post.activity
                    == activity && post.content@ == spec_stage_text(
                    body@,
                    spec_content_fallback(),
                ) && post.image_url@ == spec_picsum_url(location@),
            },
            PipelineStage::Done { post } => r matches PipelineStage::Done { post: p } && p
                == post,
            PipelineStage::Failed { error } => r == (PipelineStage::Failed { error }),
        },
{
    match stage {
        PipelineStage::AwaitFeed => match response {
            None => PipelineStage::Failed { error: PipelineError::FeedUnavailable },
            Some(body) => {
                let titles = fetch_guardian_headlines(body);
                if titles.len() == 0 {
                    PipelineStage::Failed { error: PipelineError::FeedUnavailable }
                } else {
                    let context = join_lines(&titles);
                    PipelineStage::AwaitLocation { context }
                }
            },
        },
        PipelineStage::AwaitLocation { context } => match response {
            None => PipelineStage::Failed { error: PipelineError::NetworkError },
            Some(body) => {
                let location = extract_stage_text(body, "Sydney, Australia");
                PipelineStage::AwaitActivity { context, location }
            },
        },
        PipelineStage::AwaitActivity { context, location } => match response {
            None => PipelineStage::Failed { error: PipelineError::NetworkError },
            Some(body) => {
                let activity = extract_stage_text(body, "Enjoying the sun!");
                PipelineStage::AwaitContent { context, location, activity }
            },
        },
        PipelineStage::AwaitContent { context, location, activity } => match response {
            None => PipelineStage::Failed { error: PipelineError::NetworkError },
            Some(body) => {
                let content = extract_stage_text(
                    body,
                    "Thinking about how technology connects us all and shapes our future. Always learning, always curious about what's next!",
                );
                let post = assemble_blog_post(now, content, location, activity);
                PipelineStage::Done { post }
            },
        },
        PipelineStage::Done { post } => PipelineStage::Done { post },
        PipelineStage::Failed { error } => PipelineStage::Failed { error },
    }
}

/// The request body to send for the stage the run waits for: the location,
/// activity and post-body stages each have their prompt, temperature and
/// output budget; the other stages send nothing.
pub fn stage_request(stage: &PipelineStage) -> (r: Option<String>)
    ensures
        match stage {
            PipelineStage::AwaitLocation { .. } => r matches Some(s) && s@
                == spec_generate_request(spec_location_prompt(), "0.9"@, 32),
            PipelineStage::AwaitActivity { location, .. } => r matches Some(s) && s@
                == spec_generate_request(spec_activity_prompt(location@), "0.9"@, 64),
            PipelineStage::AwaitContent { context, .. } => r matches Some(s) && s@
                == spec_generate_request(spec_content_prompt(context@), "1.35"@, 256),
            _ => r is None,
        },
{
    match stage {
        PipelineStage::AwaitLocation { .. } => {
            let prompt = location_prompt();
            Some(build_generate_request(prompt.as_str(), "0.9", 32))
        },
        PipelineStage::AwaitActivity { location, .. } => {
            let prompt = activity_prompt(location.as_str());
            Some(build_generate_request(prompt.as_str(), "0.9", 64))
        },
        PipelineStage::AwaitContent { context, .. } => {
            let prompt = content_prompt(context.as_str());
            Some(build_generate_request(prompt.as_str(), "1.35", 256))
        },
        _ => None,
    }
}

/// Runs the whole pipeline over the four response bodies. The result is a
/// ready-to-persist post: no id yet, stamped with `now`, each text what its
/// stage yielded, and the image URL derived from the location.
pub fn generate_blog_post(
    feed: Option<&str>,
    location_body: Option<&str>,
    activity_body: Option<&str>,
    content_body: Option<&str>,
    now: &str,
) -> (r: Result<BlogPost, PipelineError>)
    ensures
        match r {
            Ok(p) => {
                &&& spec_pipeline(
                    opt_view(feed),
                    opt_view(location_body),
                    opt_view(activity_body),
                    opt_view(content_body),
                ) matches Ok(t)
                &&& p.location@ == t.0
                &&& p.activity@ == t.1
                &&& p.content@ == t.2
                &&& p.id is None
                &&& p.timestamp@ == now@
                &&& p.image_url@ == spec_picsum_url(t.0)
            },
            Err(e) => spec_pipeline(
                opt_view(feed),
                opt_view(location_body),
                opt_view(activity_body),
                opt_view(content_body),
            ) == Err::<(Seq<char>, Seq<char>, Seq<char>), PipelineError>(e),
        },
{
    let s1 = pipeline_step(pipeline_start(), feed, now);
    if let PipelineStage::Failed { error } = s1 {
        return Err(error);
    }
    let s2 = pipeline_step(s1, location_body, now);
    if let PipelineStage::Failed { error } = s2 {
        return Err(error);
    }
    let s3 = pipeline_step(s2, activity_body, now);
    if let PipelineStage::Failed { error } = s3 {
        return Err(error);
    }
    let s4 = pipeline_step(s3, content_body, now);
    match s4 {
        PipelineStage::Done { post } => Ok(post),
        PipelineStage::Failed { error } => Err(error),
        _ => Err(PipelineError::NetworkError),
    }
}

/// A feed with no items fails fast with `FeedUnavailable`, whatever the
/// later stages would have answered.
pub proof fn lemma_empty_feed_fails_fast(
    feed: Seq<char>,
    location_body: Option<Seq<char>>,
    activity_body: Option<Seq<char>>,
    content_body: Option<Seq<char>>,
)
    requires
        spec_titles(feed, 0, 3).len() == 0,
    ensures
        spec_pipeline(Some(feed), location_body, activity_body, content_body) == Err::<
            (Seq<char>, Seq<char>, Seq<char>),
            PipelineError,
        >(PipelineError::FeedUnavailable),
{
}

/// Once the feed yielded headlines, the three generation stages cannot make
/// the run fail: every triple of response bodies yields a post, malformed
/// ones contributing their stage's fallback line.
pub proof fn lemma_stages_never_abort(
    feed: Seq<char>,
    location_body: Seq<char>,
    activity_body: Seq<char>,
    content_body: Seq<char>,
)
    requires
        spec_titles(feed, 0, 3).len() > 0,
    ensures
        spec_pipeline(Some(feed), Some(location_body), Some(activity_body), Some(content_body))
            == Ok::<(Seq<char>, Seq<char>, Seq<char>), PipelineError>(
            (
                spec_stage_text(location_body, spec_location_fallback()),
                spec_stage_text(activity_body, spec_activity_fallback()),
                spec_stage_text(content_body, spec_content_fallback()),
            ),
        ),
{
}

} // verus!
