//! An OpenAI-compatible chat-completion client: its configuration, the
//! requests it sends, and how it reads a failed reply. Sending and receiving
//! happen in the application.
//!
//! Sampling parameters are carried as the IEEE-754 bit patterns of their
//! `f32` values; nothing here computes with them.

use vstd::prelude::*;
use vstd::string::*;

use crate::profiles::{Profile, DEFAULT_TOP_P_BITS};
use crate::question_bank::opt_text;
use crate::text::{trim_end_char, trim_end_matches_char};

verus! {

#[verifier::external_type_specification]
#[verifier::external_body]
pub struct ExReqwestClient(reqwest::Client);

#[verifier::external_type_specification]
#[verifier::external_body]
pub struct ExReqwestError(reqwest::Error);

/// A configured chat-completion client.
pub struct AiClient {
    pub client: reqwest::Client,
    pub base_url: String,
    pub api_key: String,
    pub model: String,
    /// Bit pattern of the `f32` default sampling temperature.
    pub temperature_bits: u32,
    pub max_tokens: Option<u32>,
    pub timeout_ms: u32,
    /// The request timeout, in milliseconds, that `client` was built with.
    pub client_timeout_ms: Ghost<u32>,
}

/// One message of a conversation.
#[derive(Debug)]
pub struct ChatMessage {
    /// "system", "user" or "assistant".
    pub role: String,
    pub content: String,
}

/// The output format asked for.
#[derive(Debug)]
pub struct ResponseFormat {
    /// "text" or "json_object".
    pub format_type: String,
}

/// The body of a chat-completion request.
#[derive(Debug)]
pub struct ChatCompletionRequest {
    pub model: String,
    pub messages: Vec<ChatMessage>,
    /// Bit pattern of the `f32` sampling temperature.
    pub temperature_bits: Option<u32>,
    pub max_tokens: Option<u32>,
    /// Bit pattern of the `f32` nucleus-sampling cut-off.
    pub top_p_bits: Option<u32>,
    pub response_format: Option<ResponseFormat>,
}

/// The body of a successful chat-completion reply.
#[derive(Debug)]
pub struct ChatCompletionResponse {
    pub id: Option<String>,
    pub choices: Vec<Choice>,
    pub usage: Option<Usage>,
}

/// One alternative of a reply.
#[derive(Debug)]
pub struct Choice {
    pub message: ChatMessage,
    pub finish_reason: Option<String>,
    pub index: u32,
}

/// Token accounting of a reply.
#[derive(Debug)]
pub struct Usage {
    pub prompt_tokens: u32,
    pub completion_tokens: u32,
    pub total_tokens: u32,
}

/// The body of a failed reply.
#[derive(Debug)]
pub struct ApiError {
    pub error: ApiErrorDetail,
}

/// What a failed reply says.
#[derive(Debug)]
pub struct ApiErrorDetail {
    pub message: String,
    pub error_type: Option<String>,
    pub code: Option<String>,
}

// ---------------------------------------------------------------------------
// Specifications
// ---------------------------------------------------------------------------

/// The chat-completions endpoint under `base_url` (trailing slashes of the
/// base are dropped).
pub open spec fn completions_url_of(base_url: Seq<char>) -> Seq<char> {
    trim_end_char(base_url, '/') + "/chat/completions"@
}

/// The message of a failed reply: the API's own message when its body could
/// be read as an [`ApiError`], otherwise the status and the raw body.
pub open spec fn api_failure_text(status: Seq<char>, body: Seq<char>, parsed: Option<Seq<char>>) -> Seq<
    char,
> {
    match parsed {
        Some(m) => "AI API error: "@ + m,
        None => "AI API error: HTTP "@ + status + " - "@ + body,
    }
}

/// `r` is the request `c` sends for `messages` with the given overrides and
/// output format.
pub open spec fn request_matches(
    r: ChatCompletionRequest,
    c: AiClient,
    messages: Vec<ChatMessage>,
    temperature_override_bits: Option<u32>,
    max_tokens_override: Option<u32>,
    format: Seq<char>,
) -> bool {
    &&& r.model@ == c.model@
    &&& r.messages == messages
    &&& r.temperature_bits == Some(
        match temperature_override_bits {
            Some(t) => t,
            None => c.temperature_bits,
        },
    )
    &&& r.max_tokens == (match max_tokens_override {
        Some(m) => Some(m),
        None => c.max_tokens,
    })
    &&& r.top_p_bits == Some(DEFAULT_TOP_P_BITS)
    &&& r.response_format matches Some(f) && f.format_type@ == format
}

// ---------------------------------------------------------------------------
// Operations
// ---------------------------------------------------------------------------

/// Builds a `reqwest::Client` whose requests time out after `timeout_ms`
/// milliseconds (`Client::builder().timeout(..).build()`), and records that
/// timeout beside the result. Whether building succeeds depends on the
/// machine (TLS back end); nothing is stated of it.
#[verifier::external_body]
fn build_http_client(timeout_ms: u32) -> (r: (Result<reqwest::Client, reqwest::Error>, Ghost<u32>))
    ensures
        r.1@ == timeout_ms,
{
    let built = reqwest::Client::builder().timeout(std::time::Duration::from_millis(timeout_ms as u64)).build();
    (built, Ghost(timeout_ms))
}

impl AiClient {
    /// A client for `base_url` with the given credentials, model and default
    /// sampling settings, whose HTTP client times out after `timeout_ms`. Fails with "Failed to build HTTP client" when the
    /// HTTP client cannot be built.
    pub fn new(
        base_url: String,
        api_key: String,
        model: String,
        temperature_bits: u32,
        max_tokens: Option<u32>,
        timeout_ms: u32,
    ) -> (r: Result<AiClient, String>)
        ensures
            r matches Ok(c) ==> c.base_url@ == base_url@ && c.api_key@ == api_key@ && c.model@
                == model@ && c.temperature_bits == temperature_bits && c.max_tokens == max_tokens
                && c.timeout_ms == timeout_ms && c.client_timeout_ms@ == timeout_ms,
            r matches Err(e) ==> e@ == "Failed to build HTTP client"@,
    {
        let (built, client_timeout_ms) = build_http_client(timeout_ms);
        match built {
            Ok(client) => Ok(
                AiClient {
                    client,
                    base_url,
                    api_key,
                    model,
                    temperature_bits,
                    max_tokens,
                    timeout_ms,
                    client_timeout_ms,
                },
            ),
            Err(_) => Err(String::from_str("Failed to build HTTP client")),
        }
    }

    /// The chat-completions endpoint of this client.
    pub fn completions_url(&self) -> (r: String)
        ensures
            r@ == completions_url_of(self.base_url@),
    {
        chat_completions_url(self.base_url.as_str())
    }

    /// The value of the `Authorization` header: "Bearer " and the key.
    pub fn authorization_header(&self) -> (r: String)
        ensures
            r@ == "Bearer "@ + self.api_key@,
    {
        let mut r = String::from_str("Bearer ");
        r.append(self.api_key.as_str());
        r
    }

    fn completion_request(
        &self,
        messages: Vec<ChatMessage>,
        temperature_override_bits: Option<u32>,
        max_tokens_override: Option<u32>,
        format: &str,
    ) -> (r: ChatCompletionRequest)
        ensures
            request_matches(
                r,
                *self,
                messages,
                temperature_override_bits,
                max_tokens_override,
                format@,
            ),
    {
        let temperature = match temperature_override_bits {
            Some(t) => t,
            None => self.temperature_bits,
        };
        let max_tokens = match max_tokens_override {
            Some(m) => Some(m),
            None => self.max_tokens,
        };
        ChatCompletionRequest {
            model: self.model.clone(),
            messages,
            temperature_bits: Some(temperature),
            max_tokens,
            top_p_bits: Some(DEFAULT_TOP_P_BITS),
            response_format: Some(ResponseFormat { format_type: String::from_str(format) }),
        }
    }

    /// The request for a plain-text completion: the client's model, the
    /// messages, the temperature override or else the client's temperature,
    /// the token limit override or else the client's, top-p 1.0, "text" output.
    pub fn chat_completion_request(
        &self,
        messages: Vec<ChatMessage>,
        temperature_override_bits: Option<u32>,
        max_tokens_override: Option<u32>,
    ) -> (r: ChatCompletionRequest)
        ensures
            request_matches(
                r,
                *self,
                messages,
                temperature_override_bits,
                max_tokens_override,
                "text"@,
            ),
    {
        self.completion_request(messages, temperature_override_bits, max_tokens_override, "text")
    }

    /// As [`AiClient::chat_completion_request`], asking for a JSON object.
    pub fn chat_completion_json_request(
        &self,
        messages: Vec<ChatMessage>,
        temperature_override_bits: Option<u32>,
        max_tokens_override: Option<u32>,
    ) -> (r: ChatCompletionRequest)
        ensures
            request_matches(
                r,
                *self,
                messages,
                temperature_override_bits,
                max_tokens_override,
                "json_object"@,
            ),
    {
        self.completion_request(
            messages,
            temperature_override_bits,
            max_tokens_override,
            "json_object",
        )
    }
}

/// The chat-completions endpoint under `base_url`.
pub fn chat_completions_url(base_url: &str) -> (r: String)
    ensures
        r@ == completions_url_of(base_url@),
{
    let mut r = trim_end_matches_char(base_url, '/');
    r.append("/chat/completions");
    r
}

/// The message of a failed reply with status `status` (as displayed) and
/// body `body`, given what the body reads as, if anything.
pub fn api_failure_message(status: &str, body: &str, parsed: &Option<ApiError>) -> (r: String)
    ensures
        r@ == api_failure_text(
            status@,
            body@,
            match parsed {
                Some(e) => Some(e.error.message@),
                None => None,
            },
        ),
{
    match parsed {
        Some(e) => {
            let mut r = String::from_str("AI API error: ");
            r.append(e.error.message.as_str());
            r
        },
        None => {
            let mut r = String::from_str("AI API error: HTTP ");
            r.append(status);
            r.append(" - ");
            r.append(body);
            r
        },
    }
}

/// The content of the first alternative of a reply, if there is one.
pub fn first_choice_content(response: &ChatCompletionResponse) -> (r: Option<String>)
    ensures
        opt_text(r) == (if response.choices@.len() > 0 {
            Some(response.choices@[0].message.content@)
        } else {
            None
        }),
{
    if response.choices.len() > 0 {
        Some(response.choices[0].message.content.clone())
    } else {
        None
    }
}

/// A client configured from a profile; fails with "API key is missing for
/// profile" when the profile has no key, and as [`AiClient::new`] otherwise.
pub fn client_from_profile(profile: &Profile) -> (r: Result<AiClient, String>)
    ensures
        profile@.api_key is None ==> (r matches Err(e) && e@ == "API key is missing for profile"@),
        profile@.api_key matches Some(key) ==> match r {
            Ok(c) => c.base_url@ == profile@.base_url && c.api_key@ == key && c.model@
                == profile@.model && c.temperature_bits == profile@.temperature_bits
                && c.max_tokens == profile@.max_tokens && c.timeout_ms == profile@.timeout_ms
                && c.client_timeout_ms@ == profile@.timeout_ms,
            Err(e) => e@ == "Failed to build HTTP client"@,
        },
{
    match &profile.api_key {
        None => Err(String::from_str("API key is missing for profile")),
        Some(key) => AiClient::new(
            profile.base_url.clone(),
            key.clone(),
            profile.model.clone(),
            profile.temperature_bits,
            profile.max_tokens,
            profile.timeout_ms,
        ),
    }
}

} // verus!
