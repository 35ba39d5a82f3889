use asklp::calendar::eastern_day_window;
use asklp::account::NewAnswerForm;
use asklp::account::{own_questions, QuestionAnswered};
use asklp::account::{
    check_answer, may_ask, new_member, remaining_questions, require_admin, user_image_url, NewQuestionForm,
    GENERIC_DAILY_LIMIT,
};
use asklp::bot::{admin_mentioned, asks_question, reply_text, verdict};
use asklp::error::Error;
use asklp::oai::{
    classification_messages, classifier_prompt, ChatClient, ChatCompletionResponse, Choice, GptRole, Message, Model,
    Usage,
};
use asklp::session::User;
use asklp::time::{ago_between, time_ago, TimeDisplay, Timestamp};

fn user(avatar: &str, is_admin: bool) -> User {
    User {
        id: "1234".to_string(),
        username: "bob".to_string(),
        discriminator: "0".to_string(),
        avatar: avatar.to_string(),
        is_admin,
        joined_at: 0,
        daily_questions: 10,
        last_question_reset: None,
    }
}

#[test]
fn test_time_ago() {
    let now = Timestamp::now();

    let seconds_ago = Timestamp { millis: now.millis - 45 * 1000 };
    let minutes_ago = Timestamp { millis: now.millis - 30 * 60 * 1000 };
    let hours_ago = Timestamp { millis: now.millis - 5 * 3600 * 1000 };
    let days_ago = Timestamp { millis: now.millis - 2 * 86400 * 1000 };
    let weeks_ago = Timestamp { millis: now.millis - 3 * 7 * 86400 * 1000 };

    assert_eq!(seconds_ago.time_ago(), "45s ago");
    assert_eq!(minutes_ago.time_ago(), "30m ago");
    assert_eq!(hours_ago.time_ago(), "5h ago");
    assert_eq!(days_ago.time_ago(), "2d ago");
    assert_eq!(weeks_ago.time_ago(), "3w ago");
}

#[test]
fn ago_text_boundaries() {
    let t = |ms: i64| ago_between(Timestamp { millis: 0 }, Timestamp { millis: ms });
    assert_eq!(t(0), "0s ago");
    assert_eq!(t(59_999), "59s ago");
    assert_eq!(t(60_000), "1m ago");
    assert_eq!(t(3_600_000), "1h ago");
    assert_eq!(t(86_400_000), "1d ago");
    assert_eq!(t(7 * 86_400_000), "1w ago");
    assert_eq!(t(-5_500), "-5s ago");
    assert_eq!(time_ago(&Timestamp { millis: Timestamp::now().millis - 10_000 }), "10s ago");
}

#[test]
fn avatar_urls() {
    assert_eq!(user_image_url(&user("abc", false)), "https://cdn.discordapp.com/avatars/1234/abc.png");
    assert_eq!(user_image_url(&user("a_abc", false)), "https://cdn.discordapp.com/avatars/1234/a_abc.gif");
}

#[test]
fn new_members() {
    let admin = new_member("173963703606181888".to_string(), "lp".to_string(), "0".to_string(), None, 7);
    assert!(admin.is_admin);
    assert_eq!(admin.avatar, "");
    assert_eq!(admin.daily_questions, GENERIC_DAILY_LIMIT);
    let other = new_member("1".to_string(), "x".to_string(), "0".to_string(), Some("h".to_string()), 7);
    assert!(!other.is_admin);
    assert_eq!(other.avatar, "h");
    assert_eq!(other.joined_at, 7);
}

#[test]
fn question_limits() {
    let form = |t: &str, b: Option<&str>| NewQuestionForm { title: t.to_string(), body: b.map(|x| x.to_string()), public: true };
    assert!(form("Hello", None).validate().is_ok());
    assert!(matches!(form("Hey", None).validate(), Err(Error::InvalidQuestionTitle)));
    assert!(matches!(form(&"x".repeat(101), None).validate(), Err(Error::InvalidQuestionTitle)));
    assert!(form(&"x".repeat(100), Some(&"y".repeat(1000))).validate().is_ok());
    assert!(matches!(form("Hello", Some(&"y".repeat(1001))).validate(), Err(Error::InvalidQuestionBody)));
    assert_eq!(remaining_questions(10, 3), 7);
    assert_eq!(remaining_questions(10, 12), 0);
    assert!(may_ask(10, 9));
    assert!(!may_ask(10, 10));
}

#[test]
fn answering_rules() {
    assert!(matches!(require_admin(&user("a", false)), Err(Error::Unauthorized)));
    assert!(require_admin(&user("a", true)).is_ok());
    assert!(matches!(check_answer(&user("a", false), true, false), Err(Error::Unauthorized)));
    assert!(matches!(check_answer(&user("a", true), false, false), Err(Error::QuestionNotFound)));
    assert!(matches!(check_answer(&user("a", true), true, true), Err(Error::AnswerAlreadyExists)));
    assert!(check_answer(&user("a", true), true, false).is_ok());
}

#[test]
fn error_statuses() {
    assert_eq!(Error::Auth("x".to_string()).status_and_message().0, 401);
    assert_eq!(Error::Db("x".to_string()).status_and_message().0, 500);
    assert_eq!(Error::QuestionNotFound.status_and_message(), (404, "Question not found"));
    assert_eq!(Error::DailyLimitReached.status_and_message().0, 400);
}

fn response(content: &str) -> ChatCompletionResponse {
    ChatCompletionResponse {
        id: "c".to_string(),
        object: "chat.completion".to_string(),
        created: 0,
        choices: vec![Choice {
            index: 0,
            message: Message { role: "assistant".to_string(), content: content.to_string() },
            finish_reason: "stop".to_string(),
        }],
        usage: Usage { prompt_tokens: 1, completion_tokens: 1, total_tokens: 2 },
    }
}

#[test]
fn bot_decisions() {
    assert!(admin_mentioned(&vec![1, 173963703606181888]));
    assert!(!admin_mentioned(&vec![1, 2]));
    assert!(!admin_mentioned(&vec![]));
    assert!(asks_question(&Some(response("TRUE"))));
    assert!(asks_question(&Some(response("true"))));
    assert!(!asks_question(&Some(response("False"))));
    assert!(!asks_question(&Some(response("yes"))));
    assert!(!asks_question(&None));
    let mut empty = response("true");
    empty.choices.clear();
    assert!(!asks_question(&Some(empty)));
    assert!(verdict("true"));
    assert!(!verdict("True"));
    assert_eq!(reply_text(99), "<@99> [ask lp](https://ask-lp.com)");
}

#[test]
fn classifier_request() {
    assert!(classifier_prompt().contains("to the user 173963703606181888. Only answer with true or false."));
    let m = classification_messages("hi there".to_string());
    assert_eq!(m.len(), 2);
    assert_eq!(m[0].role, GptRole::System);
    assert_eq!(m[1].role, GptRole::User);
    assert_eq!(m[1].content, "hi there");
    assert_eq!(Model::Gpt4oMini.name(), "gpt-4o-mini-2024-07-18");
    assert_eq!(Model::Gpt4o.name(), "gpt-4o-2024-08-06");
    let c = ChatClient::new("sk-test").unwrap();
    assert_eq!(c.completions_url(), "https://api.openai.com/v1/chat/completions");
    assert!(ChatClient::new("bad\nkey").is_err());
}

#[test]
fn own_questions_carry_the_author() {
    let qs = vec![
        QuestionAnswered { id: "q1".to_string(), title: "Title one".to_string(), body: "b".to_string(), created_at: 5, public: true, answered: false, answer_body: None },
        QuestionAnswered { id: "q2".to_string(), title: "Title two".to_string(), body: "c".to_string(), created_at: 6, public: false, answered: true, answer_body: Some("yes".to_string()) },
    ];
    let rows = own_questions(&user("av", false), &qs);
    assert_eq!(rows.len(), 2);
    assert_eq!(rows[0].question_id, "q1");
    assert_eq!(rows[1].answer_body.as_deref(), Some("yes"));
    assert_eq!(rows[1].username, "bob");
    assert_eq!(rows[1].avatar, "av");
}

#[test]
fn new_york_day_window() {
    // 2024-07-04 16:00:00 UTC is noon in New York (EDT, UTC-4).
    let (start, end) = eastern_day_window(1_720_108_800).unwrap();
    assert_eq!(start, 1_720_065_600);
    assert_eq!(end, 1_720_065_600 + 86_399);
    // 2024-01-15 03:00:00 UTC is still the 14th in New York (EST, UTC-5).
    let (start, end) = eastern_day_window(1_705_287_600).unwrap();
    assert_eq!(start, 1_705_208_400);
    assert_eq!(end, 1_705_208_400 + 86_399);
}

#[test]
fn answers_are_trimmed_and_errors_have_messages() {
    let form = NewAnswerForm { body: "  \n an answer\t ".to_string() };
    assert_eq!(form.answer_body(), "an answer");
    assert_eq!(
        Error::InvalidQuestionTitle.status_and_message(),
        (400, "Invalid Question Title. Title must be between 5 and 100 characters")
    );
    assert_eq!(Error::Unauthorized.status_and_message(), (401, "Unauthorized"));
}
