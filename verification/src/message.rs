//! The values that a completion request carries out and a completion
//! response brings back.

use vstd::prelude::*;

verus! {

/// A JSON value of any shape. The gateway hands it on as it is and never
/// looks inside.
#[verifier::external_type_specification]
#[verifier::external_body]
pub struct ExJsonValue(serde_json::Value);

/// `Clone::clone` of `serde_json::Value`, which the derived `Clone` of
/// `ChatMessage` calls. Nothing is claimed of the copy.
pub assume_specification[ <serde_json::Value as Clone>::clone ](
    value: &serde_json::Value,
) -> serde_json::Value
;

/// One message of a conversation: who speaks, and what is said. The
/// content is a JSON value, so that a plain string and a structured value
/// are both at home in it.
#[derive(Clone, Debug, PartialEq)]
pub struct ChatMessage {
    pub role: String,
    pub content: serde_json::Value,
}

/// The body of a completion request.
#[derive(Clone, Debug, PartialEq)]
pub struct ChatRequest {
    pub model: String,
    pub messages: Vec<ChatMessage>,
}

/// The message inside one choice of a completion response.
#[derive(Clone, Debug, PartialEq)]
pub struct ResponseMessage {
    pub content: String,
}

/// One completion that the service offers.
#[derive(Clone, Debug, PartialEq)]
pub struct ChatChoice {
    pub message: ResponseMessage,
}

/// The body of a completion response, decoded.
#[derive(Clone, Debug, PartialEq)]
pub struct ChatResponse {
    pub choices: Vec<ChatChoice>,
}

impl View for ChatResponse {
    type V = Seq<Seq<char>>;

    /// The texts of the choices, in the order of the response.
    open spec fn view(&self) -> Seq<Seq<char>> {
        Seq::new(self.choices@.len(), |i: int| self.choices@[i].message.content@)
    }
}

} // verus!
