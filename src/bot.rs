//! The Discord bot's decisions: whether a message mentions the
//! administrator, whether the classifier judged it a question, and the
//! reply that points its author to the site.

use vstd::prelude::*;
use vstd::string::StringExecFns;
use crate::account::ADMIN_ID;
use crate::oai::{ChatCompletionResponse, ChatClient};
use crate::text::{decimal, decimal_text, text_eq};

verus! {

/// The lower-case form of a text, as Rust's `str::to_lowercase` gives it.
pub uninterp spec fn lower_of(s: Seq<char>) -> Seq<char>;

/// Relies on str::to_lowercase: the result depends on the characters alone.
#[verifier::external_body]
fn lowercase(s: &str) -> (r: String)
    ensures
        r@ == lower_of(s@),
{
    s.to_lowercase()
}

/// The bot's event handler, with the client of the classifier.
#[derive(Debug)]
pub struct Handler {
    pub oai: ChatClient,
}

impl Handler {
    pub fn new(oai: ChatClient) -> (r: Handler)
        ensures
            r.oai == oai,
    {
        Handler { oai }
    }
}

/// Whether the administrator is among the users a message mentions.
pub fn admin_mentioned(mentions: &Vec<u64>) -> (r: bool)
    ensures
        r == exists|i: int| 0 <= i < mentions@.len() && mentions@[i] == ADMIN_ID,
{
    let mut i: usize = 0;
    while i < mentions.len()
        invariant
            i <= mentions@.len(),
            forall|j: int| 0 <= j < i ==> mentions@[j] != ADMIN_ID,
        decreases mentions@.len() - i,
    {
        if mentions[i] == ADMIN_ID {
            return true;
        }
        i = i + 1;
    }
    false
}

/// The classifier's verdict from its lower-cased answer: a question only
/// where the answer reads as the boolean `true`.
pub fn verdict(lowered: &str) -> (r: bool)
    ensures
        r == (lowered@ == "true"@),
{
    text_eq(lowered, "true")
}

/// Whether the classifier's response says the message is a question: its
/// first choice, lower-cased, reads `true`. No response, or no choice,
/// counts as no question.
pub fn asks_question(response: &Option<ChatCompletionResponse>) -> (r: bool)
    ensures
        r == (response matches Some(resp) && resp.choices@.len() > 0 && lower_of(resp.choices@[0].message.content@)
            == "true"@),
{
    match response {
        Some(resp) => if resp.choices.len() > 0 {
            let lowered = lowercase(resp.choices[0].message.content.as_str());
            verdict(lowered.as_str())
        } else {
            false
        },
        None => false,
    }
}

/// The reply that mentions the author and links to the site.
pub fn reply_text(author_id: u64) -> (r: String)
    ensures
        r@ == "<@"@ + decimal_text(author_id as nat) + "> [ask lp](https://ask-lp.com)"@,
{
    let mut s = String::from_str("<@");
    s.append(decimal(author_id).as_str());
    s.append("> [ask lp](https://ask-lp.com)");
    s
}

} // verus!
