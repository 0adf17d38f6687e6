//! The question generator's response envelope.
//!
//! The external generator answers with an envelope of choices, each
//! carrying a message whose content is the structured quiz payload.
//! Only the first choice's content is consumed; the transport that
//! fills the envelope lives outside this crate.

use vstd::prelude::*;

verus! {

/// One message of the generator's response.
#[derive(Debug)]
pub struct OpenAIQuizResponseMessage {
    pub role: String,
    pub content: String,
}

/// One choice of the generator's response.
#[derive(Debug)]
pub struct OpenAIQuizResponseChoices {
    pub message: OpenAIQuizResponseMessage,
}

/// The generator's response envelope.
#[derive(Debug)]
pub struct OpenAIQuizResponse {
    pub id: String,
    pub choices: Vec<OpenAIQuizResponseChoices>,
}

/// The content of the envelope's first choice: the quiz payload to be
/// stripped and parsed. An envelope without choices has none, which the
/// caller reports as a failed generation.
pub fn first_choice_content(r: &OpenAIQuizResponse) -> (c: Option<&String>)
    ensures
        (c is Some) == (r.choices@.len() > 0),
        c matches Some(s) ==> s@ == r.choices@[0].message.content@,
{
    if r.choices.len() > 0 {
        Some(&r.choices[0].message.content)
    } else {
        None
    }
}

} // verus!
