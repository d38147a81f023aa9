//! The completion-backend boundary: what a generation stage reads out of a
//! response body — with the documented fallback when the body is malformed —
//! and the prompts and request bodies the blog pipeline sends.

use vstd::prelude::*;
use crate::jsonio::json_field_str;
use crate::jsonio::json_string_field;
use crate::text::escaped;
use crate::text::json_escape;
use crate::text::spec_digits;
use crate::text::trim_of;
use crate::text::trim_text;
use crate::text::u64_to_string;

verus! {

/// What a generation stage yields from a response body: the trimmed text of
/// the `response` field, or the stage's fallback line when the field is
/// missing.
pub open spec fn spec_stage_text(body: Seq<char>, fallback: Seq<char>) -> Seq<char> {
    match json_field_str(body, "response"@) {
        Some(s) => trim_of(s),
        None => fallback,
    }
}

/// Reads one generation stage's text out of a response body. This never
/// fails: a malformed body yields the stage's fallback line.
pub fn extract_stage_text(body: &str, fallback: &str) -> (r: String)
    ensures
        r@ == spec_stage_text(body@, fallback@),
{
    match json_string_field(body, "response") {
        Some(s) => trim_text(s.as_str()),
        None => String::from_str(fallback),
    }
}

/// A malformed response — one without the expected text field — always
/// yields the stage's fallback line, never a failure.
pub proof fn lemma_malformed_falls_back(body: Seq<char>, fallback: Seq<char>)
    requires
        json_field_str(body, "response"@) is None,
    ensures
        spec_stage_text(body, fallback) == fallback,
{
}

/// The prompt that asks for a location.
pub open spec fn spec_location_prompt() -> Seq<char> {
    "Pick an interesting city somewhere in the world. Reply with just the location:"@
}

/// Builds the location prompt.
pub fn location_prompt() -> (r: String)
    ensures
        r@ == spec_location_prompt(),
{
    String::from_str("Pick an interesting city somewhere in the world. Reply with just the location:")
}

/// The prompt that asks what is being done at a location.
pub open spec fn spec_activity_prompt(location: Seq<char>) -> Seq<char> {
    "You're in "@ + location + ". What are you doing right now?"@
}

/// Builds the activity prompt for a location.
pub fn activity_prompt(location: &str) -> (r: String)
    ensures
        r@ == spec_activity_prompt(location@),
{
    let mut p = String::from_str("You're in ");
    p.append(location);
    p.append(". What are you doing right now?");
    proof {
        assert(p@ =~= spec_activity_prompt(location@));
    }
    p
}

/// The prompt that asks for the post body, with the headline context.
pub open spec fn spec_content_prompt(context: Seq<char>) -> Seq<char> {
    "You're a tech enthusiast blogger named Egghead. Write an intimate blog post about your current life, and include musings on headlines you consider important:\n"@
        + context + "\n\nDo not use any markdown formatting or emojis."@
}

/// Builds the post-body prompt around the headline context.
pub fn content_prompt(context: &str) -> (r: String)
    ensures
        r@ == spec_content_prompt(context@),
{
    let mut p = String::from_str(
        "You're a tech enthusiast blogger named Egghead. Write an intimate blog post about your current life, and include musings on headlines you consider important:\n",
    );
    p.append(context);
    p.append("\n\nDo not use any markdown formatting or emojis.");
    proof {
        assert(p@ =~= spec_content_prompt(context@));
    }
    p
}

/// The request body sent to the completion backend for one stage: the fixed
/// model, the prompt as a JSON string literal, no streaming, and the stage's
/// temperature and output budget. The temperature travels as decimal text.
pub open spec fn spec_generate_request(
    prompt: Seq<char>,
    temperature: Seq<char>,
    num_predict: nat,
) -> Seq<char> {
    "{\"model\":\"aquiffoo/aquif-moe-400m\",\"prompt\":\""@ + escaped(prompt)
        + "\",\"stream\":false,\"temperature\":"@ + temperature + ",\"num_predict\":"@
        + spec_digits(num_predict) + "}"@
}

/// Builds one stage's request body for the completion backend.
pub fn build_generate_request(prompt: &str, temperature: &str, num_predict: u64) -> (r: String)
    ensures
        r@ == spec_generate_request(prompt@, temperature@, num_predict as nat),
{
    let mut body = String::from_str("{\"model\":\"aquiffoo/aquif-moe-400m\",\"prompt\":\"");
    let escaped_prompt = json_escape(prompt);
    body.append(escaped_prompt.as_str());
    body.append("\",\"stream\":false,\"temperature\":");
    body.append(temperature);
    body.append(",\"num_predict\":");
    let budget = u64_to_string(num_predict);
    body.append(budget.as_str());
    body.append("}");
    proof {
        assert(body@ =~= spec_generate_request(prompt@, temperature@, num_predict as nat));
    }
    body
}

} // verus!
