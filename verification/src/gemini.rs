//! Talking to the Gemini model: the system prompt, the request, and how
//! each part of the exchange is judged.

use vstd::prelude::*;
use crate::corrections::CorrectionResponse;
use crate::json::{JsonValue, at_index, at_key, as_text};
use crate::settings::Strictness;
use crate::text::{blank, is_blank};

verus! {

/// The endpoint of the model.
pub const GEMINI_API_URL: &'static str =
    "https://generativelanguage.googleapis.com/v1beta/models/gemini-flash-latest:generateContent";

/// The system prompt up to the strictness instruction.
pub const PROMPT_HEAD: &'static str = "You are GrammarLens, an English grammar correction assistant designed to help non-native English speakers improve their writing. Your corrections should be:\n\n1. Accurate — only fix actual errors, don't change correct text.\n2. Minimal — preserve the user's voice and intent. Don't rewrite sentences unnecessarily.\n3. Educational — explanations should be clear, concise, and written for someone actively learning English (B1-C1 level).\n4. Context-aware — consider informal contexts (chat messages, texts) vs formal (emails, documents). Don't over-correct casual writing.\n\n";

/// The system prompt after the strictness instruction.
pub const PROMPT_TAIL: &'static str = "\n\nSpecial rules:\n- Recognize and skip code snippets, variable names, URLs, file paths — do not correct them.\n- If the text contains intentional slang or abbreviations in casual context, don't correct them but you may note they are informal.\n- If the text mixes languages, only correct the English portions.\n- If the text is empty or too short to meaningfully check, return has_changes: false.\n\nYou MUST respond with ONLY valid JSON matching this exact schema, with no additional text:\n{\n  \"corrected_text\": \"the fully corrected text\",\n  \"has_changes\": true or false,\n  \"corrections\": [\n    {\n      \"original\": \"the exact wrong part from the original\",\n      \"corrected\": \"the fixed version\",\n      \"category\": \"grammar\" or \"spelling\" or \"punctuation\" or \"tone\" or \"style\",\n      \"severity\": \"error\" or \"warning\" or \"suggestion\",\n      \"explanation\": \"Clear, simple explanation of why this is wrong and the grammar rule. Written for someone learning English.\"\n    }\n  ]\n}";

/// Instruction for the relaxed level.
pub const RELAXED_INSTRUCTION: &'static str = "Correction level: RELAXED. Only fix clear grammar errors and spelling mistakes. Leave tone and style completely alone. Do not suggest rewording. This text is likely informal (chat, quick note). Preserve casual language like 'gonna', 'wanna', etc.";

/// Instruction for the balanced level.
pub const BALANCED_INSTRUCTION: &'static str = "Correction level: BALANCED. Fix grammar, spelling, and article/preposition errors. Offer light tone suggestions only if the text sounds clearly unnatural. Preserve the author's original voice.";

/// Instruction for the strict level.
pub const STRICT_INSTRUCTION: &'static str = "Correction level: STRICT. Provide full corrections including grammar, spelling, punctuation, tone, wordiness, formality, and naturalness. Suggest improvements for awkward phrasing. Suitable for emails and professional writing.";

/// Error given when no API key is configured.
pub const MISSING_KEY_MESSAGE: &'static str =
    "API key not configured. Please set your Gemini API key in Settings.";

/// Error given when the reply does not hold the answer where expected.
pub const UNEXPECTED_REPLY_MESSAGE: &'static str = "Unexpected API response structure";

/// The instruction that sets the correction level.
pub open spec fn strictness_instruction(strictness: Strictness) -> Seq<char> {
    match strictness {
        Strictness::Relaxed => RELAXED_INSTRUCTION@,
        Strictness::Balanced => BALANCED_INSTRUCTION@,
        Strictness::Strict => STRICT_INSTRUCTION@,
    }
}

/// The full system prompt for a correction level.
pub open spec fn system_prompt(strictness: Strictness) -> Seq<char> {
    PROMPT_HEAD@ + strictness_instruction(strictness) + PROMPT_TAIL@
}

/// Builds the system prompt for the given strictness level.
pub fn build_system_prompt(strictness: &Strictness) -> (r: String)
    ensures
        r@ == system_prompt(*strictness),
{
    let instruction: &str = match strictness {
        Strictness::Relaxed => RELAXED_INSTRUCTION,
        Strictness::Balanced => BALANCED_INSTRUCTION,
        Strictness::Strict => STRICT_INSTRUCTION,
    };
    let mut prompt = String::from_str(PROMPT_HEAD);
    prompt.append(instruction);
    prompt.append(PROMPT_TAIL);
    prompt
}

/// A piece of text in a request.
#[derive(Clone, Debug, PartialEq, Eq)]
pub struct Part {
    pub text: String,
}

/// The user's content in a request.
#[derive(Clone, Debug, PartialEq, Eq)]
pub struct Content {
    pub parts: Vec<Part>,
}

/// The system instruction of a request.
#[derive(Clone, Debug, PartialEq, Eq)]
pub struct SystemInstruction {
    pub parts: Vec<Part>,
}

/// How the model is asked to answer. The sampling temperature is kept in
/// hundredths (20 stands for 0.2).
#[derive(Clone, Debug, PartialEq, Eq)]
pub struct GenerationConfig {
    pub response_mime_type: String,
    pub temperature_hundredths: u32,
}

/// The body of a request to the model.
#[derive(Clone, Debug, PartialEq, Eq)]
pub struct GeminiRequest {
    pub contents: Vec<Content>,
    pub system_instruction: SystemInstruction,
    pub generation_config: GenerationConfig,
}

/// `request` asks the model to correct `text` under `prompt`, answering JSON
/// at temperature 0.2.
pub open spec fn asks_correction(request: GeminiRequest, prompt: Seq<char>, text: Seq<char>) -> bool {
    &&& request.contents@.len() == 1
    &&& request.contents@[0].parts@.len() == 1
    &&& request.contents@[0].parts@[0].text@ == text
    &&& request.system_instruction.parts@.len() == 1
    &&& request.system_instruction.parts@[0].text@ == prompt
    &&& request.generation_config.response_mime_type@ == "application/json"@
    &&& request.generation_config.temperature_hundredths == 20
}

/// The address a request is sent to, with the API key as query parameter.
pub open spec fn request_url(api_key: Seq<char>) -> Seq<char> {
    GEMINI_API_URL@ + "?key="@ + api_key
}

/// Requests go to the `gemini-flash-latest` model's `generateContent`
/// endpoint, with the API key as the `key` query parameter.
pub proof fn lemma_request_url(api_key: Seq<char>)
    ensures
        request_url(api_key)
            == "https://generativelanguage.googleapis.com/v1beta/models/gemini-flash-latest:generateContent?key="@
            + api_key,
{
    reveal_strlit(
        "https://generativelanguage.googleapis.com/v1beta/models/gemini-flash-latest:generateContent",
    );
    reveal_strlit("?key=");
    reveal_strlit(
        "https://generativelanguage.googleapis.com/v1beta/models/gemini-flash-latest:generateContent?key=",
    );
    assert(GEMINI_API_URL@ + "?key="@ =~= "https://generativelanguage.googleapis.com/v1beta/models/gemini-flash-latest:generateContent?key="@);
}

/// How a grammar check begins.
#[derive(Debug)]
pub enum GrammarCheckStart {
    /// The check is decided without asking the model.
    Finished(Result<CorrectionResponse, String>),
    /// The request to post (as JSON) to `url`.
    Send { url: String, request: GeminiRequest },
}

/// Starts a grammar check of `text`: without an API key it fails; a blank
/// text needs no correction; otherwise the model is asked.
pub fn check_grammar(api_key: &str, text: &str, strictness: &Strictness) -> (r: GrammarCheckStart)
    ensures
        if api_key@.len() == 0 {
            (r matches GrammarCheckStart::Finished(Err(e)) && e@ == MISSING_KEY_MESSAGE@)
        } else if blank(text@) {
            (r matches GrammarCheckStart::Finished(Ok(response)) && response.corrected_text@ == text@
                && !response.has_changes && response.corrections@.len() == 0)
        } else {
            (r matches GrammarCheckStart::Send { url, request } && url@ == request_url(api_key@)
                && asks_correction(request, system_prompt(*strictness), text@))
        },
{
    if api_key.is_empty() {
        return GrammarCheckStart::Finished(Err(String::from_str(MISSING_KEY_MESSAGE)));
    }
    if is_blank(text) {
        return GrammarCheckStart::Finished(
            Ok(
                CorrectionResponse {
                    corrected_text: String::from_str(text),
                    has_changes: false,
                    corrections: Vec::new(),
                },
            ),
        );
    }
    let mut url = String::from_str(GEMINI_API_URL);
    url.append("?key=");
    url.append(api_key);
    let mut user_parts: Vec<Part> = Vec::new();
    user_parts.push(Part { text: String::from_str(text) });
    let mut contents: Vec<Content> = Vec::new();
    contents.push(Content { parts: user_parts });
    let mut system_parts: Vec<Part> = Vec::new();
    system_parts.push(Part { text: build_system_prompt(strictness) });
    let request = GeminiRequest {
        contents,
        system_instruction: SystemInstruction { parts: system_parts },
        generation_config: GenerationConfig {
            response_mime_type: String::from_str("application/json"),
            temperature_hundredths: 20,
        },
    };
    GrammarCheckStart::Send { url, request }
}

/// A status code in 200..=299 reports success (`StatusCode::is_success`).
pub open spec fn success_status(code: int) -> bool {
    200 <= code <= 299
}

/// Exactly the statuses from 200 to 299 report success.
pub proof fn lemma_success_status(code: int)
    ensures
        success_status(code) <==> 200 <= code && code < 300,
        success_status(200) && success_status(299),
        !success_status(199) && !success_status(300),
{
}

/// Whether the HTTP status `code` reports success.
pub fn status_is_success(code: u16) -> (r: bool)
    ensures
        r == success_status(code as int),
{
    200 <= code && code <= 299
}

/// What is done with the outcome of sending the request.
#[derive(Debug, PartialEq, Eq)]
pub enum ReplyHandling {
    /// The check fails with this message.
    Failed(String),
    /// The status reports a failure: read the body as text for the message.
    ReadErrorText,
    /// Read the body as JSON.
    ReadJson,
}

/// The message for a request that could not be sent.
pub open spec fn network_error(e: Seq<char>) -> Seq<char> {
    "Network error: "@ + e
}

/// Judges the outcome of sending: a transport failure (described by its
/// message) fails the check; otherwise the status code decides how the body
/// is read.
pub fn handle_send_outcome(sent: Result<u16, String>) -> (r: ReplyHandling)
    ensures
        match sent {
            Err(e) => r matches ReplyHandling::Failed(m) && m@ == network_error(e@),
            Ok(code) => if success_status(code as int) {
                r is ReadJson
            } else {
                r is ReadErrorText
            },
        },
{
    match sent {
        Err(e) => {
            let mut m = String::from_str("Network error: ");
            m.append(e.as_str());
            ReplyHandling::Failed(m)
        },
        Ok(code) => {
            if status_is_success(code) {
                ReplyHandling::ReadJson
            } else {
                ReplyHandling::ReadErrorText
            }
        },
    }
}

/// The message for a status that reports a failure.
pub open spec fn api_error(status: Seq<char>, body: Seq<char>) -> Seq<char> {
    "Gemini API error ("@ + status + "): "@ + body
}

/// The message for a failed status, given the status as displayed (code
/// and reason) and the body's text (empty when it could not be read).
pub fn api_error_message(status: &str, error_text: Option<String>) -> (r: String)
    ensures
        r@ == api_error(
            status@,
            match error_text {
                Some(t) => t@,
                None => Seq::empty(),
            },
        ),
{
    let mut m = String::from_str("Gemini API error (");
    m.append(status);
    m.append("): ");
    match error_text {
        Some(t) => m.append(t.as_str()),
        None => {},
    }
    m
}

/// The model's answer in a reply: `candidates[0].content.parts[0].text`.
pub open spec fn reply_answer(reply: JsonValue) -> Option<Seq<char>> {
    let candidate = at_index(at_key(Some(reply), "candidates"@), 0);
    let part = at_index(at_key(at_key(candidate, "content"@), "parts"@), 0);
    as_text(at_key(part, "text"@))
}

/// The message for a reply body that is not JSON.
pub open spec fn unparsable_reply(e: Seq<char>) -> Seq<char> {
    "Failed to parse API response: "@ + e
}

/// Takes the model's answer out of the reply body (or the message of the
/// error met while reading it as JSON).
pub fn reply_text(body: Result<JsonValue, String>) -> (r: Result<String, String>)
    ensures
        match body {
            Err(e) => r matches Err(m) && m@ == unparsable_reply(e@),
            Ok(reply) => match reply_answer(reply) {
                Some(t) => r matches Ok(s) && s@ == t,
                None => r matches Err(m) && m@ == UNEXPECTED_REPLY_MESSAGE@,
            },
        },
{
    match body {
        Err(e) => {
            let mut m = String::from_str("Failed to parse API response: ");
            m.append(e.as_str());
            Err(m)
        },
        Ok(reply) => {
            let answer: Option<&String> = match reply.get("candidates") {
                Some(candidates) => match candidates.item(0) {
                    Some(candidate) => match candidate.get("content") {
                        Some(content) => match content.get("parts") {
                            Some(parts) => match parts.item(0) {
                                Some(part) => match part.get("text") {
                                    Some(t) => t.text(),
                                    None => None,
                                },
                                None => None,
                            },
                            None => None,
                        },
                        None => None,
                    },
                    None => None,
                },
                None => None,
            };
            match answer {
                Some(t) => Ok(t.clone()),
                None => Err(String::from_str(UNEXPECTED_REPLY_MESSAGE)),
            }
        },
    }
}

/// The message for an answer that is not a valid correction object.
pub open spec fn unparsable_correction(e: Seq<char>, raw: Seq<char>) -> Seq<char> {
    "Failed to parse correction JSON: "@ + e + ". Raw: "@ + raw
}

/// Ends the check with the decoded answer, or with a message quoting the
/// decoding error and the raw answer.
pub fn finish_grammar_check(raw: &str, decoded: Result<CorrectionResponse, String>) -> (r: Result<
    CorrectionResponse,
    String,
>)
    ensures
        match decoded {
            Ok(response) => r == Ok::<CorrectionResponse, String>(response),
            Err(e) => r matches Err(m) && m@ == unparsable_correction(e@, raw@),
        },
{
    match decoded {
        Ok(response) => Ok(response),
        Err(e) => {
            let mut m = String::from_str("Failed to parse correction JSON: ");
            m.append(e.as_str());
            m.append(". Raw: ");
            m.append(raw);
            Err(m)
        },
    }
}

} // verus!
