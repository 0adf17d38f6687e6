use quiz_session::dispatcher::{
    commit_generated, handle_answer, handle_results, start_precheck, AnswerResponse,
    GenerationOutcome, QuizCommands, QuizDifficulty, StartPrecheck, StartResponse,
};
use quiz_session::quiz_manager::{QuizManager, QuizOptions, QuizQuestion};

fn question(correct: char) -> QuizQuestion {
    QuizQuestion::new(
        "q".to_string(),
        QuizOptions {
            a: "x".to_string(),
            b: "y".to_string(),
            c: "z".to_string(),
            d: "w".to_string(),
        },
        correct,
    )
    .unwrap()
}

#[test]
fn difficulty_labels_parse_and_print() {
    assert_eq!(QuizDifficulty::from_label("easy"), Some(QuizDifficulty::Easy));
    assert_eq!(QuizDifficulty::from_label("average"), Some(QuizDifficulty::Average));
    assert_eq!(QuizDifficulty::from_label("hard"), Some(QuizDifficulty::Hard));
    assert_eq!(QuizDifficulty::from_label("extreme"), None);
    assert_eq!(QuizDifficulty::from_label(""), None);
    assert_eq!(QuizDifficulty::Easy.to_string(), "easy");
    assert_eq!(QuizDifficulty::Average.to_string(), "average");
    assert_eq!(QuizDifficulty::Hard.to_string(), "hard");
}

#[test]
fn command_names_parse_and_print() {
    assert!(matches!(QuizCommands::from_str("quiz"), Some(QuizCommands::Quiz)));
    assert!(matches!(QuizCommands::from_str("answer"), Some(QuizCommands::Answer)));
    assert!(matches!(QuizCommands::from_str("results"), Some(QuizCommands::Results)));
    assert!(matches!(QuizCommands::from_str("leaderboard"), Some(QuizCommands::Leaderboard)));
    assert!(QuizCommands::from_str("ping").is_none());
    assert_eq!(QuizCommands::Quiz.to_string(), "quiz");
    assert_eq!(QuizCommands::Answer.to_string(), "answer");
    assert_eq!(QuizCommands::Results.to_string(), "results");
    assert_eq!(QuizCommands::Leaderboard.to_string(), "leaderboard");
}

#[test]
fn start_flow_easy_then_hard_is_already_active() {
    let mut m = QuizManager::new();
    assert_eq!(start_precheck(&m, "easy"), StartPrecheck::Proceed(QuizDifficulty::Easy));
    assert_eq!(
        commit_generated(&mut m, GenerationOutcome::Generated(question('B'))),
        StartResponse::Started
    );
    assert_eq!(start_precheck(&m, "hard"), StartPrecheck::AlreadyActive);
    assert_eq!(
        commit_generated(&mut m, GenerationOutcome::Generated(question('C'))),
        StartResponse::AlreadyActive
    );
}

#[test]
fn start_flow_rejects_unknown_difficulty() {
    let m = QuizManager::new();
    assert_eq!(start_precheck(&m, "impossible"), StartPrecheck::InvalidDifficulty);
}

#[test]
fn failed_generation_leaves_session_untouched() {
    let mut m = QuizManager::new();
    assert_eq!(
        commit_generated(&mut m, GenerationOutcome::TransportFailed),
        StartResponse::GenerationFailed
    );
    assert!(!m.is_active());
    assert_eq!(commit_generated(&mut m, GenerationOutcome::Malformed), StartResponse::ParseFailed);
    assert!(!m.is_active());
}

#[test]
fn answer_flow_maps_every_outcome() {
    let mut m = QuizManager::new();
    assert_eq!(handle_answer(&mut m, 1, 'A'), AnswerResponse::NoActiveQuiz);
    assert_eq!(commit_generated(&mut m, GenerationOutcome::Generated(question('A'))), StartResponse::Started);
    assert_eq!(handle_answer(&mut m, 1, 'X'), AnswerResponse::InvalidChoice);
    assert_eq!(handle_answer(&mut m, 1, 'a'), AnswerResponse::Recorded('a'));
    assert_eq!(handle_answer(&mut m, 1, 'b'), AnswerResponse::AlreadyAnswered);
    assert_eq!(handle_answer(&mut m, 2, 'd'), AnswerResponse::Recorded('d'));
}

#[test]
fn results_flow_renders_full_summary() {
    let mut m = QuizManager::new();
    assert_eq!(commit_generated(&mut m, GenerationOutcome::Generated(question('B'))), StartResponse::Started);
    assert_eq!(handle_answer(&mut m, 1, 'b'), AnswerResponse::Recorded('b'));
    assert_eq!(handle_answer(&mut m, 2, 'A'), AnswerResponse::Recorded('A'));
    let msg = handle_results(&mut m);
    assert_eq!(
        msg,
        "**Correct answer: B**\n**Results:**\n\
         <@1> answered b and got it right!\n\
         <@2> answered A and got it wrong!\n\
         \n***Quiz ended. Thank you for participating!***"
    );
    assert!(!m.is_active());
}

#[test]
fn results_flow_degenerate_messages() {
    let mut m = QuizManager::new();
    assert_eq!(handle_results(&mut m), "No active quiz running.");
    assert_eq!(commit_generated(&mut m, GenerationOutcome::Generated(question('B'))), StartResponse::Started);
    assert_eq!(handle_results(&mut m), "No answers submitted yet.");
    assert!(!m.is_active());
    assert_eq!(handle_results(&mut m), "No active quiz running.");
}
