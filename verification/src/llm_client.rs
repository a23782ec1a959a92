//! The language-model client's logic: its settings, the prompts, the
//! endpoint, the reading of the model's answers, and the parsing of JSON
//! that the model returns.
use vstd::prelude::*;
use crate::text::{owned, push_str};

verus! {

/// A JSON value, parsed by `serde_json`.
#[verifier::external_type_specification]
#[verifier::external_body]
pub struct ExJsonValue(serde_json::Value);

/// Settings of the model client.
#[derive(Debug, Clone)]
pub struct LLMConfig {
    pub url: String,
    pub api_key: String,
    pub model: String,
}

/// The message when the API URL is not configured.
pub const MISSING_URL: &'static str = "AETHER_LLM_URL no configurada. Configura la URL de l'API LLM.";
/// The message when the API key is not configured.
pub const MISSING_KEY: &'static str = "AETHER_LLM_KEY no configurada. Configura la clau d'API.";
/// The model used when none is configured.
pub const DEFAULT_MODEL: &'static str = "gpt-4";

impl LLMConfig {
    /// The settings from the values of `AETHER_LLM_URL`, `AETHER_LLM_KEY` and
    /// `AETHER_LLM_MODEL`: the URL and the key are required, the model
    /// defaults to "gpt-4".
    pub fn from_env_values(url: Option<String>, api_key: Option<String>, model: Option<String>) -> (r: Result<Self, String>)
        ensures
            url is None ==> (r matches Err(e) && e@ == MISSING_URL@),
            url is Some && api_key is None ==> (r matches Err(e) && e@ == MISSING_KEY@),
            url is Some && api_key is Some ==> (r matches Ok(c) && c.url == url->0 && c.api_key == api_key->0
                && c.model@ == match model {
                    Some(m) => m@,
                    None => DEFAULT_MODEL@,
                }),
    {
        let url = match url {
            Some(u) => u,
            None => return Err(owned(MISSING_URL)),
        };
        let api_key = match api_key {
            Some(k) => k,
            None => return Err(owned(MISSING_KEY)),
        };
        let model = match model {
            Some(m) => m,
            None => owned(DEFAULT_MODEL),
        };
        Ok(LLMConfig { url, api_key, model })
    }

    /// Are the URL, the key and the model all non-empty?
    pub fn is_valid(&self) -> (r: bool)
        ensures
            r == (self.url@.len() > 0 && self.api_key@.len() > 0 && self.model@.len() > 0),
    {
        !self.url.as_str().is_empty() && !self.api_key.as_str().is_empty() && !self.model.as_str().is_empty()
    }
}

/// The outcome of a model call.
#[derive(Debug, Clone)]
pub struct LLMResult {
    pub success: bool,
    pub content: String,
    pub error: Option<String>,
}

/// The system prompt of the intent analyst.
pub const SYSTEM_PROMPT: &'static str = "Eres un Expert en Rust i Arquitectura de Sistemes. La teva tasca és transformar intencions d'usuari en tasques tècniques concretes.\n\nRegles:\n- Només respon en format JSON vàlid\n- No incloguis markdown ni text addicional\n- Cada tasca ha de ser implementable per un desenvolupador\n- Retorna un array de tasques amb: id, description i status (\"pending\")\n\nFormat de resposta:\n{\n  \"explanation\": \"Breu explicació de l'apropament\",\n  \"tasks\": [\n    {\n      \"id\": 1,\n      \"description\": \"Descripció tècnica detallada de la tasca\",\n      \"status\": \"pending\"\n    }\n  ]\n}";

/// The system prompt: the role and the JSON format of the answer.
pub fn build_system_prompt() -> (p: String)
    ensures
        p@ == SYSTEM_PROMPT@,
{
    owned(SYSTEM_PROMPT)
}

/// Opening of the context prompt.
pub const CONTEXT_HEAD: &'static str = "## Context Actual del Projecte\n\n";
/// The instructions after the context.
pub const CONTEXT_TAIL: &'static str = "\n\n### Instruccions\n\nAnalitza la intenció de l'usuari i genera una llista de tasques tècniques.\nConsidera les tasques existents per evitar duplicats.";

/// The prompt that carries the current todo context.
pub fn build_context_prompt(current_context: &str) -> (p: String)
    ensures
        p@ == CONTEXT_HEAD@ + current_context@ + CONTEXT_TAIL@,
{
    let mut p = owned(CONTEXT_HEAD);
    push_str(&mut p, current_context);
    push_str(&mut p, CONTEXT_TAIL);
    p
}

/// `s` without its trailing slashes.
pub open spec fn without_trailing_slashes(s: Seq<char>) -> Seq<char>
    decreases s.len(),
{
    if s.len() > 0 && s.last() == '/' {
        without_trailing_slashes(s.drop_last())
    } else {
        s
    }
}

/// The path of the chat endpoint.
pub const CHAT_PATH: &'static str = "/chat/completions";

/// The chat endpoint of an API base URL.
pub fn chat_url(url: &str) -> (r: String)
    ensures
        r@ == without_trailing_slashes(url@) + CHAT_PATH@,
{
    let v = crate::text::chars_of(url);
    let mut n = v.len();
    assert(v@.subrange(0, n as int) =~= v@);
    while n > 0 && v[n - 1] == '/'
        invariant
            n <= v.len(),
            without_trailing_slashes(v@) == without_trailing_slashes(v@.subrange(0, n as int)),
        decreases n,
    {
        assert(v@.subrange(0, n as int).drop_last() =~= v@.subrange(0, n - 1));
        n = n - 1;
    }
    let mut r = crate::text::string_from(&v, 0, n);
    push_str(&mut r, CHAT_PATH);
    r
}

/// The scheme of the authorization header.
pub const BEARER: &'static str = "Bearer ";

/// The value of the authorization header for an API key ("Bearer <key>").
pub fn bearer_authorization(api_key: &str) -> (v: String)
    ensures
        v@ == BEARER@ + api_key@,
{
    let mut v = owned(BEARER);
    push_str(&mut v, api_key);
    v
}

/// The message of an answer without choices.
pub const EMPTY_ANSWER: &'static str = "Resposta buida del LLM";
/// Prefix of the message of an answer that is not the expected JSON.
pub const UNPARSABLE_ANSWER: &'static str = "Error parsejant resposta LLM: ";
/// Prefix of the message of an HTTP error.
pub const HTTP_ERROR: &'static str = "Error HTTP ";
/// Prefix of the message of a failed request.
pub const NETWORK_ERROR: &'static str = "Error de xarxa: ";

/// A failed call.
pub open spec fn failure(error: Seq<char>) -> (bool, Seq<char>, Option<Seq<char>>) {
    (false, Seq::empty(), Some(error))
}

/// The view of a call outcome.
pub open spec fn result_view(r: LLMResult) -> (bool, Seq<char>, Option<Seq<char>>) {
    (r.success, r.content@, match r.error {
        Some(e) => Some(e@),
        None => None,
    })
}

/// A failed call with this error.
fn failed(error: String) -> (r: LLMResult)
    ensures
        result_view(r) == failure(error@),
{
    LLMResult { success: false, content: String::new(), error: Some(error) }
}

/// Reads an HTTP answer of the model: on a success status, the content of
/// its first choice (`parsed` is the body read as a chat answer: the first
/// choice's content, if any, or why it could not be read); on another
/// status, an error with the status line and the body.
pub fn llm_result(status_ok: bool, status: &str, body: &str, parsed: Result<Option<String>, String>) -> (r: LLMResult)
    ensures
        status_ok ==> match parsed {
            Ok(Some(c)) => result_view(r) == (true, c@, None::<Seq<char>>),
            Ok(None) => result_view(r) == failure(EMPTY_ANSWER@),
            Err(e) => result_view(r) == failure(UNPARSABLE_ANSWER@ + e@),
        },
        !status_ok ==> result_view(r) == failure(HTTP_ERROR@ + status@ + seq![':', ' '] + body@),
{
    if status_ok {
        match parsed {
            Ok(Some(c)) => LLMResult { success: true, content: c, error: None },
            Ok(None) => failed(owned(EMPTY_ANSWER)),
            Err(e) => {
                let mut m = owned(UNPARSABLE_ANSWER);
                push_str(&mut m, e.as_str());
                failed(m)
            },
        }
    } else {
        let mut m = owned(HTTP_ERROR);
        push_str(&mut m, status);
        m.push(':');
        m.push(' ');
        push_str(&mut m, body);
        assert(m@ =~= HTTP_ERROR@ + status@ + seq![':', ' '] + body@);
        failed(m)
    }
}

/// A call whose request could not be sent.
pub fn network_failure(error: &str) -> (r: LLMResult)
    ensures
        result_view(r) == failure(NETWORK_ERROR@ + error@),
{
    let mut m = owned(NETWORK_ERROR);
    push_str(&mut m, error);
    failed(m)
}

/// What `serde_json::from_str::<serde_json::Value>` reports for a text: `None`
/// when it accepts it, else the `Display` text of its error.
pub uninterp spec fn json_value_error(text: Seq<char>) -> Option<Seq<char>>;

/// Calls `serde_json::from_str::<serde_json::Value>`. The contract claims that
/// the call succeeds or fails, and with which message, as a function of the text alone;
/// which texts it accepts (JSON, within serde_json's nesting limit) is not stated.
#[verifier::external_body]
fn json_from_str(text: &str) -> (r: Result<serde_json::Value, String>)
    ensures
        match r {
            Ok(_) => json_value_error(text@) is None,
            Err(e) => json_value_error(text@) == Some(e@),
        },
{
    match serde_json::from_str::<serde_json::Value>(text) {
        Ok(v) => Ok(v),
        Err(e) => Err(format!("{e}")),
    }
}

/// Prefix of the message of an answer that is not JSON.
pub const JSON_ERROR: &'static str = "Error parsejant JSON del LLM: ";

/// The message for an answer that `serde_json` rejected with `detail`.
pub fn json_error_message(detail: &str) -> (m: String)
    ensures
        m@ == JSON_ERROR@ + detail@,
{
    let mut m = owned(JSON_ERROR);
    push_str(&mut m, detail);
    m
}

/// Parses the model's answer as JSON.
pub fn parse_llm_response(response: &str) -> (r: Result<serde_json::Value, String>)
    ensures
        r is Ok <==> json_value_error(response@) is None,
        r matches Err(e) ==> e@ == JSON_ERROR@ + json_value_error(response@)->0,
{
    match json_from_str(response) {
        Ok(v) => Ok(v),
        Err(detail) => Err(json_error_message(detail.as_str())),
    }
}

} // verus!
