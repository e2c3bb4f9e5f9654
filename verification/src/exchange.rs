//! One completion exchange, from the request to the text that the caller
//! gets. The gateway itself sends and reads nothing: it says what is to be
//! done next, is told what came of it, and decides.

use crate::endpoint::{bearer_header, bearer_of, completions_url, completions_url_of};
use crate::message::{ChatMessage, ChatRequest, ChatResponse};
use crate::status::{is_success_code, status_digits, status_text, HttpStatus};
use vstd::prelude::*;

verus! {

/// A completion request with all that sending it takes: the address, the
/// value of the `Authorization` header, and the body.
#[derive(Clone, Debug, PartialEq)]
pub struct PreparedRequest {
    pub url: String,
    pub authorization: String,
    pub body: ChatRequest,
}

/// The request that asks the service at `api_url` for a completion of
/// `messages` by `model`, in the name of `api_key`. Model and messages go
/// into the body as they are; an empty list of messages is no exception.
pub fn prepare_request(
    api_url: &str,
    api_key: &str,
    model: String,
    messages: Vec<ChatMessage>,
) -> (request: PreparedRequest)
    ensures
        request.url@ == completions_url_of(api_url@),
        request.authorization@ == bearer_of(api_key@),
        request.body.model == model,
        request.body.messages == messages,
{
    PreparedRequest {
        url: completions_url(api_url),
        authorization: bearer_header(api_key),
        body: ChatRequest { model, messages },
    }
}

/// The text of an error body: what was read, or nothing where the body
/// could not be read.
pub open spec fn body_text(body: Option<String>) -> Seq<char> {
    match body {
        Some(text) => text@,
        None => Seq::empty(),
    }
}

/// The error for a response whose status `code` is not one of success and
/// whose body reads `body`.
pub open spec fn api_error_text(code: u16, body: Seq<char>) -> Seq<char> {
    "API error "@ + status_text(code) + ": "@ + body
}

/// The error for a response of success that offers no choice.
pub open spec fn no_response_text() -> Seq<char> {
    "No response from API"@
}

/// What a response with the choices `choices` gives the caller: the text
/// of the first choice, or an error where there is none.
pub open spec fn completion_of(choices: Seq<Seq<char>>) -> Result<Seq<char>, Seq<char>> {
    if choices.len() > 0 {
        Ok(choices[0])
    } else {
        Err(no_response_text())
    }
}

/// An outcome as the texts it holds.
pub open spec fn outcome_text(outcome: Result<String, String>) -> Result<Seq<char>, Seq<char>> {
    match outcome {
        Ok(text) => Ok(text@),
        Err(message) => Err(message@),
    }
}

/// The error message for a response with the status `status`, which is
/// not one of success, and the body `body`, `None` where the body could
/// not be read.
pub fn api_error(status: HttpStatus, body: Option<String>) -> (message: String)
    ensures
        message@ == api_error_text(status@, body_text(body)),
{
    let shown = status.to_text();
    let text = match body {
        Some(text) => text,
        None => String::new(),
    };
    String::from_str("API error ").concat(shown.as_str()).concat(": ").concat(text.as_str())
}

/// The text of the first choice of `response`, or the error that says
/// that the response holds none.
pub fn first_completion(response: &ChatResponse) -> (outcome: Result<String, String>)
    ensures
        outcome_text(outcome) == completion_of(response@),
{
    if response.choices.len() > 0 {
        Ok(response.choices[0].message.content.clone())
    } else {
        Err(String::from_str("No response from API"))
    }
}

/// How far an exchange has come.
#[derive(Clone, Copy, Debug, PartialEq, Eq, Structural)]
pub enum Phase {
    /// The request is on its way; nothing has come back yet.
    AwaitingStatus,
    /// A response with this status, which is not one of success, has
    /// come; its body is being read as text.
    AwaitingErrorBody(HttpStatus),
    /// A response of success has come; its body is being decoded.
    AwaitingCompletion,
    /// The caller has its answer.
    Finished,
}

/// What the outside world reports to the gateway.
#[derive(Debug, PartialEq)]
pub enum Event {
    /// The request could not be sent or brought no response. The text
    /// describes the failure.
    SendFailed(String),
    /// A response has come, with this status.
    Responded(HttpStatus),
    /// The body of the response as text, `None` where it could not be
    /// read.
    ErrorBody(Option<String>),
    /// The body of the response, decoded.
    Decoded(ChatResponse),
    /// The body of the response could not be read or decoded. The text
    /// describes the failure.
    DecodeFailed(String),
}

/// What the gateway asks for next.
#[derive(Debug, PartialEq)]
pub enum Action {
    /// Read the body of the response as text and report it as
    /// `Event::ErrorBody`.
    ReadErrorBody,
    /// Decode the body of the response and report it as `Event::Decoded`
    /// or `Event::DecodeFailed`.
    DecodeCompletion,
    /// Hand this outcome to the caller: the exchange is over.
    Return(Result<String, String>),
}

/// An action as the texts it holds.
pub enum ActionView {
    ReadErrorBody,
    DecodeCompletion,
    Return(Result<Seq<char>, Seq<char>>),
}

impl View for Action {
    type V = ActionView;

    open spec fn view(&self) -> ActionView {
        match *self {
            Action::ReadErrorBody => ActionView::ReadErrorBody,
            Action::DecodeCompletion => ActionView::DecodeCompletion,
            Action::Return(outcome) => ActionView::Return(outcome_text(outcome)),
        }
    }
}

/// Whether `event` is one that can happen in `phase`.
pub open spec fn accepts(phase: Phase, event: Event) -> bool {
    match phase {
        Phase::AwaitingStatus => event is SendFailed || event is Responded,
        Phase::AwaitingErrorBody(_) => event is ErrorBody,
        Phase::AwaitingCompletion => event is Decoded || event is DecodeFailed,
        Phase::Finished => false,
    }
}

/// The phase that follows `phase` when `event` happens in it, and what
/// the gateway asks for then.
///
/// A failure to send, or to decode, goes to the caller as it was
/// described. A status of success asks for the body to be decoded, any
/// other for the body to be read as text; that text goes to the caller
/// as an error, together with the status. A decoded body gives its first
/// choice.
pub open spec fn step(phase: Phase, event: Event) -> (Phase, ActionView) {
    match event {
        Event::SendFailed(description) => (
            Phase::Finished,
            ActionView::Return(Err(description@)),
        ),
        Event::Responded(status) => if is_success_code(status@) {
            (Phase::AwaitingCompletion, ActionView::DecodeCompletion)
        } else {
            (Phase::AwaitingErrorBody(status), ActionView::ReadErrorBody)
        },
        Event::ErrorBody(body) => (
            Phase::Finished,
            ActionView::Return(
                Err(api_error_text(phase->AwaitingErrorBody_0@, body_text(body))),
            ),
        ),
        Event::Decoded(response) => (
            Phase::Finished,
            ActionView::Return(completion_of(response@)),
        ),
        Event::DecodeFailed(description) => (
            Phase::Finished,
            ActionView::Return(Err(description@)),
        ),
    }
}

/// Whether `event` is one that can happen in `phase`.
pub fn is_accepted(phase: Phase, event: &Event) -> (accepted: bool)
    ensures
        accepted == accepts(phase, *event),
{
    match phase {
        Phase::AwaitingStatus => match event {
            Event::SendFailed(_) => true,
            Event::Responded(_) => true,
            _ => false,
        },
        Phase::AwaitingErrorBody(_) => match event {
            Event::ErrorBody(_) => true,
            _ => false,
        },
        Phase::AwaitingCompletion => match event {
            Event::Decoded(_) => true,
            Event::DecodeFailed(_) => true,
            _ => false,
        },
        Phase::Finished => false,
    }
}

/// Takes the exchange one step on: from `phase`, in which `event` has
/// happened, to the phase that follows, with what is to be done next.
pub fn advance(phase: Phase, event: Event) -> (next: (Phase, Action))
    requires
        accepts(phase, event),
    ensures
        (next.0, next.1@) == step(phase, event),
{
    match event {
        Event::SendFailed(description) => (Phase::Finished, Action::Return(Err(description))),
        Event::Responded(status) => {
            if status.is_success() {
                (Phase::AwaitingCompletion, Action::DecodeCompletion)
            } else {
                (Phase::AwaitingErrorBody(status), Action::ReadErrorBody)
            }
        },
        Event::ErrorBody(body) => {
            let status = match phase {
                Phase::AwaitingErrorBody(status) => status,
                _ => vstd::pervasive::unreached(),
            };
            (Phase::Finished, Action::Return(Err(api_error(status, body))))
        },
        Event::Decoded(response) => (Phase::Finished, Action::Return(first_completion(&response))),
        Event::DecodeFailed(description) => (Phase::Finished, Action::Return(Err(description))),
    }
}

/// Whether `part` stands in `whole` from the position `at` on, character
/// for character.
pub open spec fn occurs_at(part: Seq<char>, whole: Seq<char>, at: int) -> bool {
    &&& 0 <= at
    &&& at + part.len() <= whole.len()
    &&& whole.subrange(at, at + part.len()) == part
}

/// The error for a status that is not one of success shows the digits of
/// the status right after its opening words, and ends with the body as it
/// was read.
pub proof fn lemma_api_error_shows_status_and_body(code: u16, body: Seq<char>)
    ensures
        occurs_at(status_digits(code), api_error_text(code, body), 10),
        occurs_at(body, api_error_text(code, body), api_error_text(code, body).len() - body.len()),
{
    reveal_strlit("API error ");
    reveal_strlit(": ");
    let whole = api_error_text(code, body);
    assert(whole.subrange(10, 13) =~= status_digits(code));
    assert(whole.subrange(whole.len() - body.len(), whole.len() as int) =~= body);
}

/// The gateway hands an outcome to the caller when the exchange is over,
/// and only then; and no exchange takes more than two events.
pub proof fn lemma_exchange_is_short(phase: Phase, event: Event, later: Event)
    requires
        accepts(phase, event),
    ensures
        step(phase, event).0 is Finished <==> step(phase, event).1 is Return,
        accepts(step(phase, event).0, later) ==> step(step(phase, event).0, later).0 is Finished,
{
}

/// A response of success that offers at least one choice gives the caller
/// the text of the first choice and nothing else, unchanged.
pub proof fn lemma_success_gives_first_choice(status: HttpStatus, response: ChatResponse)
    requires
        is_success_code(status@),
        response.choices@.len() > 0,
    ensures
        step(Phase::AwaitingStatus, Event::Responded(status)) == (
            Phase::AwaitingCompletion,
            ActionView::DecodeCompletion,
        ),
        step(Phase::AwaitingCompletion, Event::Decoded(response)) == (
            Phase::Finished,
            ActionView::Return(Ok(response.choices@[0].message.content@)),
        ),
{
}

/// A response of success that offers no choice gives the caller the one
/// error that says so, whatever else the response holds.
pub proof fn lemma_no_choice_is_an_error(status: HttpStatus, response: ChatResponse)
    requires
        is_success_code(status@),
        response.choices@.len() == 0,
    ensures
        step(Phase::AwaitingStatus, Event::Responded(status)) == (
            Phase::AwaitingCompletion,
            ActionView::DecodeCompletion,
        ),
        step(Phase::AwaitingCompletion, Event::Decoded(response)) == (
            Phase::Finished,
            ActionView::Return(Err(no_response_text())),
        ),
{
}

/// A response whose status is not one of success gives the caller an
/// error that holds the digits of the status and the body as it was read.
pub proof fn lemma_error_status_is_reported(status: HttpStatus, body: Option<String>)
    requires
        !is_success_code(status@),
    ensures
        step(Phase::AwaitingStatus, Event::Responded(status)) == (
            Phase::AwaitingErrorBody(status),
            ActionView::ReadErrorBody,
        ),
        step(Phase::AwaitingErrorBody(status), Event::ErrorBody(body)) == (
            Phase::Finished,
            ActionView::Return(Err(api_error_text(status@, body_text(body)))),
        ),
        occurs_at(status_digits(status@), api_error_text(status@, body_text(body)), 10),
        occurs_at(
            body_text(body),
            api_error_text(status@, body_text(body)),
            api_error_text(status@, body_text(body)).len() - body_text(body).len(),
        ),
{
    lemma_api_error_shows_status_and_body(status@, body_text(body));
}

} // verus!
