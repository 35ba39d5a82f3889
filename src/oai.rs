//! The chat-completion client that classifies Discord messages, and the
//! shapes of its requests and responses.

use vstd::prelude::*;
use vstd::string::StringExecFns;
use crate::account::ADMIN_ID;
use crate::text::{decimal, decimal_text};

verus! {

/// Why a chat completion failed.
#[derive(Debug, Clone, Copy, PartialEq, Eq, Structural)]
pub enum Error {
    Http,
    Json,
}

/// The models the classifier may use.
#[derive(Debug, Clone, Copy, PartialEq, Eq, Structural)]
pub enum Model {
    Gpt4o,
    Gpt4oMini,
}

impl Model {
    /// The model's name in the API.
    pub fn name(&self) -> (r: &'static str)
        ensures
            match self {
                Model::Gpt4o => r@ == "gpt-4o-2024-08-06"@,
                Model::Gpt4oMini => r@ == "gpt-4o-mini-2024-07-18"@,
            },
    {
        match self {
            Model::Gpt4o => "gpt-4o-2024-08-06",
            Model::Gpt4oMini => "gpt-4o-mini-2024-07-18",
        }
    }
}

/// Who speaks in a chat message.
#[derive(Debug, Clone, Copy, PartialEq, Eq, Structural)]
pub enum GptRole {
    User,
    System,
    Assistant,
}

/// One message of a chat-completion request.
#[derive(Debug)]
pub struct GptMessage {
    pub role: GptRole,
    pub content: String,
}

/// A value that can stand as a chat message.
pub trait IntoGptMessage: Sized {
    fn into_gpt_message(self) -> GptMessage;
}

impl IntoGptMessage for GptMessage {
    fn into_gpt_message(self) -> GptMessage {
        self
    }
}

impl IntoGptMessage for (GptRole, String) {
    fn into_gpt_message(self) -> GptMessage {
        GptMessage { role: self.0, content: self.1 }
    }
}

/// A chat-completion response.
#[derive(Debug, Clone, PartialEq)]
pub struct ChatCompletionResponse {
    pub id: String,
    pub object: String,
    pub created: i64,
    pub choices: Vec<Choice>,
    pub usage: Usage,
}

/// One choice of a response.
#[derive(Debug, Clone, PartialEq)]
pub struct Choice {
    pub index: i64,
    pub message: Message,
    pub finish_reason: String,
}

/// The message of a choice.
#[derive(Debug, Clone, PartialEq)]
pub struct Message {
    pub role: String,
    pub content: String,
}

/// Tokens a completion used.
#[derive(Debug, Clone, PartialEq)]
pub struct Usage {
    pub prompt_tokens: i64,
    pub completion_tokens: i64,
    pub total_tokens: i64,
}

/// The instruction given to the model ahead of the message.
pub open spec fn prompt_text() -> Seq<char> {
    "your role is to analyze the context of a discord message to figure out if the user is asking a question to the user "@
        + decimal_text(ADMIN_ID as nat)
        + ". Only answer with true or false. Messages might be in French or English, or a mix."@
}

/// The instruction given to the model ahead of the message.
pub fn classifier_prompt() -> (r: String)
    ensures
        r@ == prompt_text(),
{
    let mut p = String::from_str(
        "your role is to analyze the context of a discord message to figure out if the user is asking a question to the user ",
    );
    p.append(decimal(ADMIN_ID).as_str());
    p.append(". Only answer with true or false. Messages might be in French or English, or a mix.");
    p
}

/// The messages of a classification request for `content`: the
/// instruction, then the message itself.
pub fn classification_messages(content: String) -> (r: Vec<GptMessage>)
    ensures
        r@.len() == 2,
        r@[0].role == GptRole::System && r@[0].content@ == prompt_text(),
        r@[1].role == GptRole::User && r@[1].content@ == content@,
{
    let mut v: Vec<GptMessage> = Vec::new();
    v.push(GptMessage { role: GptRole::System, content: classifier_prompt() });
    v.push(GptMessage { role: GptRole::User, content });
    v
}

/// Relies on reqwest's ClientBuilder: a client that sends `authorization`
/// as its Authorization header, or `None` where that is no valid header
/// value or the client cannot be built.
#[verifier::external_body]
fn client_with_authorization(authorization: &str) -> Option<reqwest::Client> {
    let value = reqwest::header::HeaderValue::from_str(authorization).ok()?;
    let mut headers = reqwest::header::HeaderMap::new();
    headers.insert(reqwest::header::AUTHORIZATION, value);
    reqwest::Client::builder().default_headers(headers).build().ok()
}

/// Where the API lives.
pub open spec fn api_base() -> Seq<char> {
    "https://api.openai.com/v1"@
}

/// A client of the chat-completion API.
#[derive(Debug)]
pub struct ChatClient {
    pub inner: reqwest::Client,
    pub base_url: String,
}

impl ChatClient {
    /// A client that authenticates with `api_key`; `Err(Error::Http)` where
    /// the key cannot stand in a header or no HTTP client can be made.
    pub fn new(api_key: &str) -> (r: Result<ChatClient, Error>)
        ensures
            r matches Ok(c) ==> c.base_url@ == api_base(),
            r matches Err(e) ==> e == Error::Http,
    {
        let mut auth = String::from_str("Bearer ");
        auth.append(api_key);
        match client_with_authorization(auth.as_str()) {
            Some(inner) => Ok(ChatClient { inner, base_url: String::from_str("https://api.openai.com/v1") }),
            None => Err(Error::Http),
        }
    }

    /// The address of the chat-completion endpoint.
    pub fn completions_url(&self) -> (r: String)
        ensures
            r@ == self.base_url@ + "/chat/completions"@,
    {
        let mut u = self.base_url.clone();
        u.append("/chat/completions");
        u
    }
}

} // verus!
