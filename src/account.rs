//! Members, questions and answers: who may do what, and the limits on what
//! they write.

use vstd::prelude::*;
use vstd::string::{StringExecFns, StringSliceAdditionalSpecFns};
use vstd::utf8::encode_utf8;
use crate::error::Error;
use crate::session::User;
use crate::text::{decimal, decimal_text, has_prefix, starts_with, text_eq};

verus! {

/// Discord id of the administrator who answers questions.
pub const ADMIN_ID: u64 = 173963703606181888;

/// Where Discord serves avatars.
pub const DISCORD_AVATAR_URL: &'static str = "https://cdn.discordapp.com/avatars";

/// Questions a new member may ask per day.
pub const GENERIC_DAILY_LIMIT: u64 = 10;

/// Bounds on a question's title, in bytes.
pub const TITLE_MIN: usize = 5;
pub const TITLE_MAX: usize = 100;

/// Bound on a question's body, in bytes.
pub const BODY_MAX: usize = 1000;

/// A question as stored; `created_at` in seconds since the epoch.
#[derive(Debug, Clone)]
pub struct Question {
    pub id: String,
    pub title: String,
    pub body: String,
    pub created_at: i64,
    pub public: bool,
    pub user_id: String,
}

/// An answer as stored.
#[derive(Debug)]
pub struct Answer {
    pub id: String,
    pub body: String,
    pub created_at: i64,
    pub user_id: String,
    pub question_id: String,
}

/// A question with its author, as the app lists it.
#[derive(Debug)]
pub struct QuestionUser {
    pub question_id: String,
    pub title: String,
    pub body: String,
    pub created_at: i64,
    pub public: bool,
    pub user_id: String,
    pub username: String,
    pub avatar: String,
    pub answered: bool,
    pub answer_body: Option<String>,
}

/// A member's own question, with its answer where there is one.
#[derive(Debug)]
pub struct QuestionAnswered {
    pub id: String,
    pub title: String,
    pub body: String,
    pub created_at: i64,
    pub public: bool,
    pub answered: bool,
    pub answer_body: Option<String>,
}

/// The question form.
#[derive(Debug)]
pub struct NewQuestionForm {
    pub title: String,
    pub body: Option<String>,
    pub public: bool,
}

/// The answer form.
#[derive(Debug)]
pub struct NewAnswerForm {
    pub body: String,
}

/// The query of the OAuth callback.
#[derive(Debug)]
pub struct AuthRequest {
    pub code: String,
    pub state: String,
}

/// The page data of the answer form.
#[derive(Debug)]
pub struct AppAnswerTemplate {
    pub user: User,
    pub question: Question,
    pub image_url: String,
}

/// The page data of the question form.
#[derive(Debug)]
pub struct NewQuestionTemplate {
    pub image_url: String,
    pub user: User,
}

/// The page data of the app's home.
#[derive(Debug)]
pub struct AppTemplate {
    pub user: User,
    pub image_url: String,
    pub questions: Vec<QuestionUser>,
    pub q_count: usize,
    pub remaining: u64,
    pub user_limit: u64,
}

/// Whether `row` lists the member's own question `q`.
pub open spec fn lists_own(row: &QuestionUser, user: &User, q: &QuestionAnswered) -> bool {
    &&& row.question_id == q.id && row.title == q.title && row.body == q.body
    &&& row.created_at == q.created_at && row.public == q.public
    &&& row.answered == q.answered && row.answer_body == q.answer_body
    &&& row.user_id == user.id && row.username == user.username && row.avatar == user.avatar
}

/// The rows of a member's own questions, in the same order, each with the
/// member as author.
pub fn own_questions(user: &User, questions: &Vec<QuestionAnswered>) -> (r: Vec<QuestionUser>)
    ensures
        r@.len() == questions@.len(),
        forall|i: int| 0 <= i < r@.len() ==> lists_own(&#[trigger] r@[i], user, &questions@[i]),
{
    let mut rows: Vec<QuestionUser> = Vec::new();
    let mut i: usize = 0;
    while i < questions.len()
        invariant
            i <= questions@.len(),
            rows@.len() == i,
            forall|j: int| 0 <= j < i ==> lists_own(&#[trigger] rows@[j], user, &questions@[j]),
        decreases questions@.len() - i,
    {
        let q = &questions[i];
        rows.push(QuestionUser {
            question_id: q.id.clone(),
            title: q.title.clone(),
            body: q.body.clone(),
            created_at: q.created_at,
            public: q.public,
            user_id: user.id.clone(),
            username: user.username.clone(),
            avatar: user.avatar.clone(),
            answered: q.answered,
            answer_body: q.answer_body.clone(),
        });
        i = i + 1;
    }
    rows
}

/// The address of a member's avatar: animated avatars (their hash starts
/// with `a_`) are GIFs, the others PNGs.
pub open spec fn avatar_url(id: Seq<char>, avatar: Seq<char>) -> Seq<char> {
    let ext = if has_prefix(avatar, seq!['a', '_']) {
        "gif"@
    } else {
        "png"@
    };
    "https://cdn.discordapp.com/avatars"@ + "/"@ + id + "/"@ + avatar + "."@ + ext
}

/// The address of the member's avatar.
pub fn user_image_url(user: &User) -> (r: String)
    ensures
        r@ == avatar_url(user.id@, user.avatar@),
{
    proof {
        reveal_strlit("a_");
    }
    assert("a_"@ =~= seq!['a', '_']);
    let ext = if starts_with(user.avatar.as_str(), "a_") {
        "gif"
    } else {
        "png"
    };
    let mut url = String::from_str(DISCORD_AVATAR_URL);
    url.append("/");
    url.append(user.id.as_str());
    url.append("/");
    url.append(user.avatar.as_str());
    url.append(".");
    url.append(ext);
    url
}

/// Whether a Discord id is the administrator's.
pub open spec fn is_admin_id(id: Seq<char>) -> bool {
    id == decimal_text(ADMIN_ID as nat)
}

/// A member on first login at `now`: the administrator when the id is
/// theirs, the generic daily limit, no reset yet. A missing avatar is kept
/// as empty text.
pub fn new_member(id: String, username: String, discriminator: String, avatar: Option<String>, now: i64) -> (r: User)
    ensures
        r.id == id && r.username == username && r.discriminator == discriminator,
        r.avatar@ == match avatar {
            Some(a) => a@,
            None => Seq::<char>::empty(),
        },
        r.is_admin == is_admin_id(id@),
        r.joined_at == now,
        r.daily_questions == GENERIC_DAILY_LIMIT,
        r.last_question_reset.is_none(),
{
    let admin = decimal(ADMIN_ID);
    let is_admin = text_eq(id.as_str(), admin.as_str());
    let avatar = match avatar {
        Some(a) => a,
        None => String::new(),
    };
    User {
        id,
        username,
        discriminator,
        avatar,
        is_admin,
        joined_at: now,
        daily_questions: GENERIC_DAILY_LIMIT,
        last_question_reset: None,
    }
}

/// Whether a title and a body are within bounds, in bytes of UTF-8.
pub open spec fn question_error(title: Seq<char>, body: Seq<char>) -> Option<Error> {
    if encode_utf8(title).len() < TITLE_MIN || encode_utf8(title).len() > TITLE_MAX {
        Some(Error::InvalidQuestionTitle)
    } else if encode_utf8(body).len() > BODY_MAX {
        Some(Error::InvalidQuestionBody)
    } else {
        None
    }
}

impl NewQuestionForm {
    /// The body, empty where the form gave none.
    pub open spec fn body_text(&self) -> Seq<char> {
        match self.body {
            Some(b) => b@,
            None => Seq::empty(),
        }
    }

    /// Checks the title (5 to 100 bytes) and then the body (at most 1000
    /// bytes).
    pub fn validate(&self) -> (r: Result<(), Error>)
        ensures
            match question_error(self.title@, self.body_text()) {
                None => r is Ok,
                Some(e) => r == Err::<(), Error>(e),
            },
    {
        let t = self.title.as_str().as_bytes().len();
        if t < TITLE_MIN || t > TITLE_MAX {
            return Err(Error::InvalidQuestionTitle);
        }
        let b = match &self.body {
            Some(b) => {
                assert(self.body_text() == b@);
                b.as_str().as_bytes().len()
            },
            None => {
                assert(encode_utf8(self.body_text()).len() == 0);
                0
            },
        };
        if b > BODY_MAX {
            return Err(Error::InvalidQuestionBody);
        }
        Ok(())
    }
}

/// Questions left today: the limit less those asked, none once the limit
/// is reached.
pub fn remaining_questions(limit: u64, asked: usize) -> (r: u64)
    ensures
        r as int == if asked as int >= limit as int { 0 } else { limit as int - asked as int },
{
    if asked as u64 >= limit {
        0
    } else {
        limit - asked as u64
    }
}

/// A text without its leading and trailing whitespace, as Rust's
/// `str::trim` gives it.
pub uninterp spec fn trim_of(s: Seq<char>) -> Seq<char>;

/// Relies on str::trim: the result depends on the characters alone.
#[verifier::external_body]
fn trimmed(s: &str) -> (r: String)
    ensures
        r@ == trim_of(s@),
{
    s.trim().to_string()
}

impl NewAnswerForm {
    /// The answer as stored: the body without surrounding whitespace.
    pub fn answer_body(&self) -> (r: String)
        ensures
            r@ == trim_of(self.body@),
    {
        trimmed(self.body.as_str())
    }
}

/// Whether a member may ask another question today.
pub fn may_ask(limit: u64, asked: usize) -> (r: bool)
    ensures
        r == (asked < limit),
{
    (asked as u64) < limit
}

/// Only the administrator may open the answer form.
pub fn require_admin(user: &User) -> (r: Result<(), Error>)
    ensures
        user.is_admin <==> r is Ok,
        !user.is_admin ==> r == Err::<(), Error>(Error::Unauthorized),
{
    if user.is_admin {
        Ok(())
    } else {
        Err(Error::Unauthorized)
    }
}

/// Whether an answer may be stored: the administrator answers a question
/// that exists and has no answer yet; each failure in that order.
pub fn check_answer(user: &User, question_found: bool, already_answered: bool) -> (r: Result<(), Error>)
    ensures
        !user.is_admin ==> r == Err::<(), Error>(Error::Unauthorized),
        user.is_admin && !question_found ==> r == Err::<(), Error>(Error::QuestionNotFound),
        user.is_admin && question_found && already_answered ==> r == Err::<(), Error>(Error::AnswerAlreadyExists),
        user.is_admin && question_found && !already_answered ==> r is Ok,
{
    if !user.is_admin {
        Err(Error::Unauthorized)
    } else if !question_found {
        Err(Error::QuestionNotFound)
    } else if already_answered {
        Err(Error::AnswerAlreadyExists)
    } else {
        Ok(())
    }
}

} // verus!
