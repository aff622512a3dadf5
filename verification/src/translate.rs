//! The translation exchange with the Qwen MT service: what to send, and what
//! the answer means. The program around the library performs the HTTP
//! exchange and the waiting; JSON is read and written there too.
use vstd::prelude::*;
use vstd::string::StringExecFns;
use crate::language::{service_name, Language};

verus! {

/// The chat completions endpoint of the service.
pub open spec fn endpoint_url() -> Seq<char> {
    "https://dashscope.aliyuncs.com/compatible-mode/v1/chat/completions"@
}

/// The translation model that requests name.
pub open spec fn model_name() -> Seq<char> {
    "qwen-mt-plus"@
}

/// How long the simulated translation waits, in milliseconds.
pub open spec fn simulated_delay_ms() -> u64 {
    500
}

/// The text of a simulated translation, given when no API key is set.
pub open spec fn simulated_reply(text: Seq<char>) -> Seq<char> {
    "[未配置 API Key，模拟翻译] "@ + text
}

/// The message of an error in sending the request.
pub open spec fn network_error_text(error: Seq<char>) -> Seq<char> {
    "网络错误: "@ + error
}

/// The message of an answer whose body could not be read.
pub open spec fn parse_error_text(error: Seq<char>) -> Seq<char> {
    "响应解析失败: "@ + error
}

/// The message of an answer with a status outside success.
pub open spec fn status_error_text(status: Seq<char>, body: Seq<char>) -> Seq<char> {
    "API 错误 "@ + status + ": "@ + body
}

/// The message of an answer that holds no choice.
pub open spec fn no_choice_text() -> Seq<char> {
    "API 返回了空的 choices"@
}

/// One message of the chat.
pub struct Message {
    pub role: &'static str,
    pub content: String,
}

/// The languages to translate between, by their service names.
pub struct TranslationOptions {
    pub source_lang: String,
    pub target_lang: String,
}

/// The body of a translation request.
pub struct ChatRequest {
    pub model: &'static str,
    pub messages: Vec<Message>,
    pub translation_options: TranslationOptions,
}

/// The message of one choice in an answer.
pub struct AssistantMessage {
    pub content: String,
}

/// One choice of an answer.
pub struct Choice {
    pub message: AssistantMessage,
}

/// The body of an answer.
pub struct ChatResponse {
    pub choices: Vec<Choice>,
}

/// A POST request to send, with its headers and its JSON body.
pub struct HttpPost {
    pub url: &'static str,
    pub authorization: String,
    pub content_type: &'static str,
    pub body: ChatRequest,
}

/// What a translation does first.
pub enum TranslationPlan {
    /// Wait `delay_ms` milliseconds, then succeed with `reply`.
    Simulate { delay_ms: u64, reply: String },
    /// Send the request, then conclude from the answer.
    Send(HttpPost),
}

/// How the exchange with the service went.
pub enum ChatReply {
    /// The request could not be sent or answered; the error's text.
    Unreachable(String),
    /// The answer had a success status and a body that is not a chat
    /// response; the error's text.
    Unreadable(String),
    /// The answer had a status outside success; its status line and body.
    Rejected { status: String, body: String },
    /// The answer had a success status and this body.
    Answered(ChatResponse),
}

/// `post` is the request that translates `text` from `source` to `target`
/// with `api_key`.
pub open spec fn is_request_for(
    post: HttpPost,
    text: Seq<char>,
    source: Language,
    target: Language,
    api_key: Seq<char>,
) -> bool {
    &&& post.url@ == endpoint_url()
    &&& post.authorization@ == "Bearer "@ + api_key
    &&& post.content_type@ == "application/json"@
    &&& post.body.model@ == model_name()
    &&& post.body.messages@.len() == 1
    &&& post.body.messages@[0].role@ == "user"@
    &&& post.body.messages@[0].content@ == text
    &&& post.body.translation_options.source_lang@ == service_name(source)
    &&& post.body.translation_options.target_lang@ == service_name(target)
}

/// Plans the translation of `text` from `source` to `target`: without an API
/// key, a simulated translation after half a second; with one, the request to
/// the service.
pub fn plan_translation(text: &str, source: Language, target: Language, api_key: &str) -> (res:
    TranslationPlan)
    ensures
        api_key@.len() == 0 ==> (res matches TranslationPlan::Simulate { delay_ms, reply }
            && delay_ms == simulated_delay_ms() && reply@ == simulated_reply(text@)),
        api_key@.len() > 0 ==> (res matches TranslationPlan::Send(post) && is_request_for(
            post,
            text@,
            source,
            target,
            api_key@,
        )),
{
    if api_key.is_empty() {
        let reply = "[未配置 API Key，模拟翻译] ".to_owned().concat(text);
        return TranslationPlan::Simulate { delay_ms: 500, reply };
    }
    let mut messages: Vec<Message> = Vec::new();
    messages.push(Message { role: "user", content: text.to_owned() });
    let body = ChatRequest {
        model: "qwen-mt-plus",
        messages,
        translation_options: TranslationOptions {
            source_lang: source.full_name().to_owned(),
            target_lang: target.full_name().to_owned(),
        },
    };
    TranslationPlan::Send(
        HttpPost {
            url: "https://dashscope.aliyuncs.com/compatible-mode/v1/chat/completions",
            authorization: "Bearer ".to_owned().concat(api_key),
            content_type: "application/json",
            body,
        },
    )
}

/// Whether an HTTP status code is a success, 200 to 299.
pub fn status_is_success(code: u16) -> (res: bool)
    ensures
        res == (200 <= code < 300),
{
    200 <= code && code < 300
}

/// Concludes an exchange with the service: the content of the first choice
/// of an answer, or the message of the failure.
pub fn conclude_translation(reply: ChatReply) -> (res: Result<String, String>)
    ensures
        match reply {
            ChatReply::Unreachable(e) => res matches Err(m) && m@ == network_error_text(e@),
            ChatReply::Unreadable(e) => res matches Err(m) && m@ == parse_error_text(e@),
            ChatReply::Rejected { status, body } => res matches Err(m) && m@ == status_error_text(
                status@,
                body@,
            ),
            ChatReply::Answered(answer) => if answer.choices@.len() > 0 {
                res matches Ok(t) && t@ == answer.choices@[0].message.content@
            } else {
                res matches Err(m) && m@ == no_choice_text()
            },
        },
{
    match reply {
        ChatReply::Unreachable(e) => Err("网络错误: ".to_owned().concat(e.as_str())),
        ChatReply::Unreadable(e) => Err("响应解析失败: ".to_owned().concat(e.as_str())),
        ChatReply::Rejected { status, body } => Err(
            "API 错误 ".to_owned().concat(status.as_str()).concat(": ").concat(body.as_str()),
        ),
        ChatReply::Answered(answer) => {
            let mut choices = answer.choices;
            if choices.len() > 0 {
                let first = choices.remove(0);
                Ok(first.message.content)
            } else {
                Err("API 返回了空的 choices".to_owned())
            }
        },
    }
}

/// A planned request translates from the source language to the target
/// language, in that order, by their service names, for all languages; it
/// carries the text as the one user message, the key as a bearer token, and
/// goes to the chat completions endpoint with the MT model.
pub proof fn lemma_request_direction(
    post: HttpPost,
    text: Seq<char>,
    source: Language,
    target: Language,
    api_key: Seq<char>,
)
    requires
        is_request_for(post, text, source, target, api_key),
    ensures
        post.body.translation_options.source_lang@ == service_name(source),
        post.body.translation_options.target_lang@ == service_name(target),
        source != target ==> post.body.translation_options.source_lang@
            != post.body.translation_options.target_lang@,
        post.body.messages@.len() == 1,
        post.body.messages@[0].content@ == text,
        post.body.messages@[0].role@ == "user"@,
        post.authorization@ == "Bearer "@ + api_key,
        post.url@ == "https://dashscope.aliyuncs.com/compatible-mode/v1/chat/completions"@,
        post.content_type@ == "application/json"@,
        post.body.model@ == "qwen-mt-plus"@,
{
    crate::language::lemma_service_names_distinct(source, target);
}

/// The simulated reply is the notice followed by the text, unchanged.
pub proof fn lemma_simulated_reply(text: Seq<char>)
    ensures
        simulated_reply(text) == "[未配置 API Key，模拟翻译] "@ + text,
        simulated_reply(text).subrange(
            simulated_reply(text).len() - text.len(),
            simulated_reply(text).len() as int,
        ) == text,
        simulated_delay_ms() == 500,
{
    assert(simulated_reply(text).subrange(
        simulated_reply(text).len() - text.len(),
        simulated_reply(text).len() as int,
    ) =~= text);
}

/// Each failure's message ends with the error text it was given, unchanged,
/// after its own label.
pub proof fn lemma_error_messages(error: Seq<char>, status: Seq<char>, body: Seq<char>)
    ensures
        network_error_text(error) == "网络错误: "@ + error,
        parse_error_text(error) == "响应解析失败: "@ + error,
        status_error_text(status, body) == "API 错误 "@ + status + ": "@ + body,
        no_choice_text() == "API 返回了空的 choices"@,
{
}

} // verus!
