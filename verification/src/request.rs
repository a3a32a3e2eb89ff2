//! One exchange with the completion service: what its answer is taken for,
//! and how a failure is reported.

use vstd::prelude::*;
use crate::action::{Action, ActionView};

verus! {

/// `serde_json::Value`: a JSON document. What it holds is known only
/// through [`json_strings`].
#[verifier::external_type_specification]
#[verifier::external_body]
pub struct ExJsonValue(serde_json::Value);

/// `serde_json::Error`: why a text is no JSON document.
#[verifier::external_type_specification]
#[verifier::external_body]
pub struct ExJsonError(serde_json::Error);

/// One step down into a JSON document: into the member of an object by its
/// key, or into the element of an array by its position.
pub enum JsonStep {
    Key(Seq<char>),
    Index(nat),
}

/// The strings that a JSON document holds, each by the path of steps that
/// leads to it from the top. A document that is itself a string holds it
/// at the empty path.
pub uninterp spec fn json_strings(document: serde_json::Value) -> Map<Seq<JsonStep>, Seq<char>>;

/// The text in which a JSON error says what is wrong, and where.
pub uninterp spec fn json_error_message(error: serde_json::Error) -> Seq<char>;

/// What a text is parsed to: the strings held by the document that it is,
/// or, where it is no JSON document, the message of the error.
pub uninterp spec fn parsed_strings(text: Seq<char>) -> Result<
    Map<Seq<JsonStep>, Seq<char>>,
    Seq<char>,
>;

/// The strings that stand below one step in a document, by the rest of
/// their paths.
pub open spec fn strings_below(strings: Map<Seq<JsonStep>, Seq<char>>, step: JsonStep) -> Map<
    Seq<JsonStep>,
    Seq<char>,
> {
    Map::new(
        |path: Seq<JsonStep>| strings.contains_key(seq![step] + path),
        |path: Seq<JsonStep>| strings[seq![step] + path],
    )
}

/// `serde_json::from_str`, for a `Value`: the text parsed as a JSON
/// document, or the reason why it is none.
#[verifier::external_body]
fn parse_json(text: &str) -> (parsed: Result<serde_json::Value, serde_json::Error>)
    ensures
        match parsed {
            Ok(document) => parsed_strings(text@) == Ok::<
                Map<Seq<JsonStep>, Seq<char>>,
                Seq<char>,
            >(json_strings(document)),
            Err(error) => parsed_strings(text@) == Err::<
                Map<Seq<JsonStep>, Seq<char>>,
                Seq<char>,
            >(json_error_message(error)),
        },
{
    serde_json::from_str::<serde_json::Value>(text)
}

/// The text of a `serde_json::Error`, as its `Display` gives it.
#[verifier::external_body]
fn json_error_text(error: &serde_json::Error) -> (text: String)
    ensures
        text@ == json_error_message(*error),
{
    error.to_string()
}

/// `Value::get` with a key: the member of that key, where the document is
/// an object that has one.
#[verifier::external_body]
fn json_member(document: &serde_json::Value, key: &str) -> (member: Option<serde_json::Value>)
    ensures
        match member {
            Some(member) => json_strings(member) == strings_below(
                json_strings(*document),
                JsonStep::Key(key@),
            ),
            None => strings_below(json_strings(*document), JsonStep::Key(key@)).dom()
                == Set::<Seq<JsonStep>>::empty(),
        },
{
    document.get(key).cloned()
}

/// `Value::get` with a position: the element at that position, where the
/// document is an array that is long enough.
#[verifier::external_body]
fn json_element(document: &serde_json::Value, index: usize) -> (element: Option<
    serde_json::Value,
>)
    ensures
        match element {
            Some(element) => json_strings(element) == strings_below(
                json_strings(*document),
                JsonStep::Index(index as nat),
            ),
            None => strings_below(json_strings(*document), JsonStep::Index(index as nat)).dom()
                == Set::<Seq<JsonStep>>::empty(),
        },
{
    document.get(index).cloned()
}

/// `Value::as_str`: the string that the document is, where it is one.
#[verifier::external_body]
fn json_text(document: &serde_json::Value) -> (text: Option<String>)
    ensures
        match text {
            Some(text) => json_strings(*document).contains_key(Seq::empty()) && json_strings(
                *document,
            )[Seq::empty()] == text@,
            None => !json_strings(*document).contains_key(Seq::empty()),
        },
{
    document.as_str().map(|text| text.to_string())
}

/// Why an exchange with the service gave no answer.
#[derive(Debug, Clone, PartialEq, Eq)]
pub enum RequestError {
    /// The credential is not set.
    MissingCredential,
    /// The exchange itself failed; the text says how.
    Transport(String),
    /// The response is no JSON document; the text says why.
    Malformed(String),
    /// The response is a JSON document without the answer in its place.
    MissingField,
}

/// What is reported where the credential is missing.
pub open spec fn missing_credential_text() -> Seq<char> {
    "OPENROUTER_API_KEY environment variable not set"@
}

/// What is reported where the response lacks the answer.
pub open spec fn missing_field_text() -> Seq<char> {
    "response holds no message content"@
}

/// What stands before the report of a failed exchange.
pub open spec fn api_error_prefix() -> Seq<char> {
    "API Error: "@
}

impl RequestError {
    /// The text that reports the failure.
    pub open spec fn text(&self) -> Seq<char> {
        match self {
            RequestError::MissingCredential => missing_credential_text(),
            RequestError::Transport(text) => text@,
            RequestError::Malformed(text) => text@,
            RequestError::MissingField => missing_field_text(),
        }
    }

    /// The text that reports the failure.
    pub fn message(&self) -> (text: String)
        ensures
            text@ == self.text(),
    {
        match self {
            RequestError::MissingCredential => {
                "OPENROUTER_API_KEY environment variable not set".to_owned()
            },
            RequestError::Transport(text) => text.clone(),
            RequestError::Malformed(text) => text.clone(),
            RequestError::MissingField => "response holds no message content".to_owned(),
        }
    }
}

/// Where the answer stands in a response: the content of the message of
/// the first choice.
pub open spec fn reply_path() -> Seq<JsonStep> {
    seq![
        JsonStep::Key("choices"@),
        JsonStep::Index(0),
        JsonStep::Key("message"@),
        JsonStep::Key("content"@),
    ]
}

/// The outcome that stands for an exchange in contracts.
pub enum ReplyView {
    Reply(Seq<char>),
    Malformed(Seq<char>),
    MissingField,
}

/// What a response text is taken for: the string at [`reply_path`] is the
/// answer; a document without one lacks the field; a text that is no
/// document is malformed, and the parser's message says why.
pub open spec fn reply_of(text: Seq<char>) -> ReplyView {
    match parsed_strings(text) {
        Err(message) => ReplyView::Malformed(message),
        Ok(strings) => if strings.contains_key(reply_path()) {
            ReplyView::Reply(strings[reply_path()])
        } else {
            ReplyView::MissingField
        },
    }
}

/// Reads the answer out of a response.
pub fn parse_reply(response: &str) -> (reply: Result<String, RequestError>)
    ensures
        match reply_of(response@) {
            ReplyView::Reply(text) => reply is Ok && reply->Ok_0@ == text,
            ReplyView::Malformed(message) => reply is Err && reply->Err_0 is Malformed
                && reply->Err_0.text() == message,
            ReplyView::MissingField => reply == Err::<String, RequestError>(
                RequestError::MissingField,
            ),
        },
{
    let document = match parse_json(response) {
        Ok(document) => document,
        Err(error) => {
            return Err(RequestError::Malformed(json_error_text(&error)));
        },
    };
    let ghost top = json_strings(document);
    let ghost s0 = JsonStep::Key("choices"@);
    let ghost s1 = JsonStep::Index(0);
    let ghost s2 = JsonStep::Key("message"@);
    let ghost s3 = JsonStep::Key("content"@);
    proof {
        assert(reply_path() =~= seq![s0] + (seq![s1] + (seq![s2] + (seq![s3] + Seq::empty()))));
    }
    let choices = match json_member(&document, "choices") {
        Some(choices) => choices,
        None => {
            proof {
                let below = strings_below(top, s0);
                let rest = seq![s1] + (seq![s2] + (seq![s3] + Seq::empty()));
                assert(!below.dom().contains(rest));
            }
            return Err(RequestError::MissingField);
        },
    };
    let first = match json_element(&choices, 0) {
        Some(first) => first,
        None => {
            proof {
                let below = strings_below(json_strings(choices), s1);
                let rest = seq![s2] + (seq![s3] + Seq::empty());
                assert(!below.dom().contains(rest));
            }
            return Err(RequestError::MissingField);
        },
    };
    let message = match json_member(&first, "message") {
        Some(message) => message,
        None => {
            proof {
                let below = strings_below(json_strings(first), s2);
                let rest = seq![s3] + Seq::empty();
                assert(!below.dom().contains(rest));
            }
            return Err(RequestError::MissingField);
        },
    };
    let content = match json_member(&message, "content") {
        Some(content) => content,
        None => {
            proof {
                let below = strings_below(json_strings(message), s3);
                assert(!below.dom().contains(Seq::empty()));
            }
            return Err(RequestError::MissingField);
        },
    };
    proof {
        assert(seq![s3] + Seq::<JsonStep>::empty() =~= seq![s3]);
    }
    match json_text(&content) {
        Some(text) => Ok(text),
        None => Err(RequestError::MissingField),
    }
}

/// The action that an exchange ends in: the answer as a received message,
/// a failure as an error that says what failed.
pub open spec fn completion_of(outcome: Result<String, RequestError>) -> ActionView {
    match outcome {
        Ok(reply) => ActionView::MessageReceived(reply@),
        Err(error) => ActionView::Error(api_error_prefix() + error.text()),
    }
}

/// The one action that a finished exchange puts on the bus.
pub fn completion_action(outcome: Result<String, RequestError>) -> (action: Action)
    ensures
        action@ == completion_of(outcome),
{
    match outcome {
        Ok(reply) => Action::MessageReceived(reply),
        Err(error) => {
            let text = "API Error: ".to_owned().concat(error.message().as_str());
            Action::Error(text)
        },
    }
}

/// What stands before the report of a component that could not be drawn.
pub open spec fn draw_error_prefix() -> Seq<char> {
    "Failed to draw: "@
}

/// The action that reports that a component could not be drawn.
pub fn draw_failure(reason: &str) -> (action: Action)
    ensures
        action@ == ActionView::Error(draw_error_prefix() + reason@),
{
    Action::Error("Failed to draw: ".to_owned().concat(reason))
}

} // verus!
