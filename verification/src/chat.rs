//! The chat flow's compute: building the OpenAI-style chat request — system
//! line, prior turns, then the user message with any attached images — and
//! reading the completion text back out of the response.

use vstd::prelude::*;
use crate::jsonio::chat_content_of;
use crate::jsonio::error_text_of;
use crate::jsonio::json_chat_content;
use crate::jsonio::json_error_field;
use crate::text::escaped;
use crate::text::json_escape;

verus! {

/// The completion text the chat flow relays: the error note when the server
/// reported an error, the completion at `choices[0].message.content`
/// otherwise, and the fixed complaint when neither is present.
pub open spec fn spec_chat_text(body: Seq<char>) -> Seq<char> {
    match error_text_of(body) {
        Some(e) => "Error from API: "@ + e,
        None => match chat_content_of(body) {
            Some(c) => c,
            None => "Prompt machine broke - no response field"@,
        },
    }
}

/// Reads the text to relay out of a chat-completion response body. This
/// never fails: a malformed body yields the fixed complaint.
pub fn extract_chat_text(body: &str) -> (r: String)
    ensures
        r@ == spec_chat_text(body@),
{
    match json_error_field(body) {
        Some(e) => {
            let mut msg = String::from_str("Error from API: ");
            msg.append(e.as_str());
            proof {
                assert(msg@ =~= spec_chat_text(body@));
            }
            msg
        },
        None => match json_chat_content(body) {
            Some(c) => c,
            None => String::from_str("Prompt machine broke - no response field"),
        },
    }
}

/// The prior turns as they stand in the messages array: each one a raw JSON
/// object, preceded by its separating comma.
pub open spec fn spec_history_part(history: Seq<Seq<char>>) -> Seq<char>
    decreases history.len(),
{
    if history.len() == 0 {
        Seq::empty()
    } else {
        spec_history_part(history.drop_last()) + ","@ + history.last()
    }
}

/// One attached image as a vision content part: a JPEG data URL around the
/// image's base64 text.
pub open spec fn spec_image_part(image: Seq<char>) -> Seq<char> {
    ",{\"type\":\"image_url\",\"image_url\":{\"url\":\"data:image/jpeg;base64,"@ + escaped(image)
        + "\"}}"@
}

/// All attached images as vision content parts, in order.
pub open spec fn spec_image_parts(images: Seq<Seq<char>>) -> Seq<char>
    decreases images.len(),
{
    if images.len() == 0 {
        Seq::empty()
    } else {
        spec_image_parts(images.drop_last()) + spec_image_part(images.last())
    }
}

/// The user message: plain text content without images, and the vision
/// form — a text part followed by one part per image — with them.
pub open spec fn spec_user_message(prompt: Seq<char>, images: Seq<Seq<char>>) -> Seq<char> {
    if images.len() == 0 {
        "{\"role\":\"user\",\"content\":\""@ + escaped(prompt) + "\"}"@
    } else {
        "{\"role\":\"user\",\"content\":[{\"type\":\"text\",\"text\":\""@ + escaped(prompt) + "\"}"@
            + spec_image_parts(images) + "]}"@
    }
}

/// The whole chat request: the fixed model, the system line, the prior
/// turns, the user message, and no streaming.
pub open spec fn spec_chat_request(
    init: Seq<char>,
    prompt: Seq<char>,
    history: Seq<Seq<char>>,
    images: Seq<Seq<char>>,
) -> Seq<char> {
    "{\"model\":\"riven/smolvlm\",\"messages\":[{\"role\":\"system\",\"content\":\""@ + escaped(
        init,
    ) + "\"}"@ + spec_history_part(history) + ","@ + spec_user_message(prompt, images)
        + "],\"stream\":false}"@
}

/// Builds the chat-completion request body. `history` holds prior turns as
/// raw JSON objects; `images` holds base64 image data, and an empty list
/// means a plain text message.
pub fn build_chat_request(
    init: &str,
    prompt: &str,
    history: &Vec<String>,
    images: &Vec<String>,
) -> (r: String)
    ensures
        r@ == spec_chat_request(init@, prompt@, history.deep_view(), images.deep_view()),
{
    let mut body = String::from_str(
        "{\"model\":\"riven/smolvlm\",\"messages\":[{\"role\":\"system\",\"content\":\"",
    );
    let escaped_init = json_escape(init);
    body.append(escaped_init.as_str());
    body.append("\"}");
    let mut i: usize = 0;
    while i < history.len()
        invariant
            i <= history@.len(),
            history.deep_view().len() == history@.len(),
            body@ == "{\"model\":\"riven/smolvlm\",\"messages\":[{\"role\":\"system\",\"content\":\""@
                + escaped(init@) + "\"}"@ + spec_history_part(history.deep_view().take(i as int)),
        decreases history@.len() - i,
    {
        body.append(",");
        body.append(history[i].as_str());
        proof {
            let hs = history.deep_view();
            assert(hs[i as int] == history@[i as int]@);
            assert(hs.take(i + 1).drop_last() =~= hs.take(i as int));
            assert(body@ =~= "{\"model\":\"riven/smolvlm\",\"messages\":[{\"role\":\"system\",\"content\":\""@
                + escaped(init@) + "\"}"@ + spec_history_part(hs.take(i + 1)));
        }
        i = i + 1;
    }
    proof {
        assert(history.deep_view().take(history@.len() as int) =~= history.deep_view());
    }
    body.append(",");
    let user = build_user_message(prompt, images);
    body.append(user.as_str());
    body.append("],\"stream\":false}");
    proof {
        assert(body@ =~= spec_chat_request(
            init@,
            prompt@,
            history.deep_view(),
            images.deep_view(),
        ));
    }
    body
}

fn build_user_message(prompt: &str, images: &Vec<String>) -> (r: String)
    ensures
        r@ == spec_user_message(prompt@, images.deep_view()),
{
    if images.len() == 0 {
        let mut msg = String::from_str("{\"role\":\"user\",\"content\":\"");
        let escaped_prompt = json_escape(prompt);
        msg.append(escaped_prompt.as_str());
        msg.append("\"}");
        proof {
            assert(images.deep_view().len() == 0);
            assert(msg@ =~= spec_user_message(prompt@, images.deep_view()));
        }
        msg
    } else {
        let mut msg = String::from_str("{\"role\":\"user\",\"content\":[{\"type\":\"text\",\"text\":\"");
        let escaped_prompt = json_escape(prompt);
        msg.append(escaped_prompt.as_str());
        msg.append("\"}");
        let mut i: usize = 0;
        while i < images.len()
            invariant
                i <= images@.len(),
                images.deep_view().len() == images@.len(),
                msg@ == "{\"role\":\"user\",\"content\":[{\"type\":\"text\",\"text\":\""@ + escaped(
                    prompt@,
                ) + "\"}"@ + spec_image_parts(images.deep_view().take(i as int)),
            decreases images@.len() - i,
        {
            msg.append(",{\"type\":\"image_url\",\"image_url\":{\"url\":\"data:image/jpeg;base64,");
            let escaped_image = json_escape(images[i].as_str());
            msg.append(escaped_image.as_str());
            msg.append("\"}}");
            proof {
                let ims = images.deep_view();
                assert(ims[i as int] == images@[i as int]@);
                assert(ims.take(i + 1).drop_last() =~= ims.take(i as int));
                assert(msg@ =~= "{\"role\":\"user\",\"content\":[{\"type\":\"text\",\"text\":\""@
                    + escaped(prompt@) + "\"}"@ + spec_image_parts(ims.take(i + 1)));
            }
            i = i + 1;
        }
        proof {
            assert(images.deep_view().take(images@.len() as int) =~= images.deep_view());
        }
        msg.append("]}");
        proof {
            assert(images.deep_view().len() > 0);
            assert(msg@ =~= spec_user_message(prompt@, images.deep_view()));
        }
        msg
    }
}

} // verus!
