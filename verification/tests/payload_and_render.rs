use quiz_session::generator::{
    first_choice_content, OpenAIQuizResponse, OpenAIQuizResponseChoices, OpenAIQuizResponseMessage,
};
use quiz_session::payload::strip_generated_payload;
use quiz_session::render::u64_to_string;

fn strip(s: &str) -> String {
    let out = strip_generated_payload(&s.as_bytes().to_vec());
    String::from_utf8(out).unwrap()
}

#[test]
fn strips_tagged_fence_and_trailing_fence() {
    assert_eq!(strip("```json\n{\"a\":1}\n```"), "{\"a\":1}");
}

#[test]
fn strips_whitespace_around_payload() {
    assert_eq!(strip("  \n\t{\"a\":1} \r\n"), "{\"a\":1}");
}

#[test]
fn plain_payload_is_unchanged() {
    assert_eq!(strip("{\"a\":1}"), "{\"a\":1}");
}

#[test]
fn repeated_fences_are_all_stripped() {
    assert_eq!(strip("```json```json{\"a\":1}``````"), "{\"a\":1}");
}

#[test]
fn fence_only_payload_becomes_empty() {
    assert_eq!(strip("```json```"), "");
    assert_eq!(strip(""), "");
    assert_eq!(strip("   "), "");
}

#[test]
fn untagged_leading_fence_is_kept() {
    // only the json-tagged marker is stripped at the front
    assert_eq!(strip("```{\"a\":1}```"), "```{\"a\":1}");
}

#[test]
fn renders_decimals_exactly() {
    assert_eq!(u64_to_string(0), "0");
    assert_eq!(u64_to_string(7), "7");
    assert_eq!(u64_to_string(10), "10");
    assert_eq!(u64_to_string(1234567890), "1234567890");
    assert_eq!(u64_to_string(u64::MAX), "18446744073709551615");
}

#[test]
fn first_choice_content_of_envelope() {
    let resp = OpenAIQuizResponse {
        id: "r1".to_string(),
        choices: vec![OpenAIQuizResponseChoices {
            message: OpenAIQuizResponseMessage {
                role: "assistant".to_string(),
                content: "payload".to_string(),
            },
        }],
    };
    assert_eq!(first_choice_content(&resp), Some(&"payload".to_string()));
    let empty = OpenAIQuizResponse { id: "r2".to_string(), choices: vec![] };
    assert_eq!(first_choice_content(&empty), None);
}
