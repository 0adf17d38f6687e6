use quiz_session::quiz_manager::{
    AnswerResult, FinalizeOutcome, QuizError, QuizManager, QuizOptions, QuizQuestion,
};

fn options() -> QuizOptions {
    QuizOptions {
        a: "x".to_string(),
        b: "y".to_string(),
        c: "z".to_string(),
        d: "w".to_string(),
    }
}

fn question(correct: char) -> QuizQuestion {
    QuizQuestion::new("q".to_string(), options(), correct).unwrap()
}

#[test]
fn round_trip_summary() {
    let mut m = QuizManager::new();
    assert_eq!(m.start(question('B')), Ok(()));
    assert_eq!(m.submit_answer(1, 'B'), Ok(()));
    assert_eq!(m.submit_answer(2, 'A'), Ok(()));
    match m.finalize_results() {
        FinalizeOutcome::Summary(s) => {
            assert_eq!(s.correct, 'B');
            assert_eq!(
                s.entries,
                vec![
                    AnswerResult { participant: 1, choice: 'B', correct: true },
                    AnswerResult { participant: 2, choice: 'A', correct: false },
                ]
            );
        }
        _ => panic!("expected a summary"),
    }
    assert!(!m.is_active());
}

#[test]
fn lowercase_submission_matches_uppercase_correct() {
    let mut m = QuizManager::new();
    assert_eq!(m.start(question('B')), Ok(()));
    assert_eq!(m.submit_answer(7, 'b'), Ok(()));
    match m.finalize_results() {
        FinalizeOutcome::Summary(s) => {
            assert_eq!(s.correct, 'B');
            assert_eq!(
                s.entries,
                vec![AnswerResult { participant: 7, choice: 'b', correct: true }]
            );
        }
        _ => panic!("expected a summary"),
    }
}

#[test]
fn lowercase_correct_is_reported_uppercase() {
    let mut m = QuizManager::new();
    assert_eq!(m.start(question('c')), Ok(()));
    assert_eq!(m.submit_answer(1, 'C'), Ok(()));
    match m.finalize_results() {
        FinalizeOutcome::Summary(s) => {
            assert_eq!(s.correct, 'C');
            assert!(s.entries[0].correct);
        }
        _ => panic!("expected a summary"),
    }
}

#[test]
fn second_start_is_refused_without_overwriting() {
    let mut m = QuizManager::new();
    assert_eq!(m.start(question('A')), Ok(()));
    assert_eq!(m.start(question('D')), Err(QuizError::AlreadyActive));
    assert_eq!(m.submit_answer(1, 'A'), Ok(()));
    match m.finalize_results() {
        FinalizeOutcome::Summary(s) => {
            // the first question is still the active one
            assert_eq!(s.correct, 'A');
            assert!(s.entries[0].correct);
        }
        _ => panic!("expected a summary"),
    }
}

#[test]
fn duplicate_answer_is_refused_and_first_kept() {
    let mut m = QuizManager::new();
    assert_eq!(m.start(question('B')), Ok(()));
    assert_eq!(m.submit_answer(5, 'A'), Ok(()));
    assert!(m.has_user_answered(5));
    assert_eq!(m.submit_answer(5, 'B'), Err(QuizError::AlreadyAnswered));
    match m.finalize_results() {
        FinalizeOutcome::Summary(s) => {
            assert_eq!(
                s.entries,
                vec![AnswerResult { participant: 5, choice: 'A', correct: false }]
            );
        }
        _ => panic!("expected a summary"),
    }
}

#[test]
fn submit_without_active_quiz() {
    let mut m = QuizManager::new();
    assert_eq!(m.submit_answer(1, 'A'), Err(QuizError::NoActiveQuiz));
}

#[test]
fn finalize_on_fresh_session_reports_no_active_quiz() {
    let mut m = QuizManager::new();
    assert!(matches!(m.finalize_results(), FinalizeOutcome::NoActiveQuiz));
    assert!(!m.is_active());
}

#[test]
fn finalize_without_answers_still_resets() {
    let mut m = QuizManager::new();
    assert_eq!(m.start(question('B')), Ok(()));
    assert!(matches!(m.finalize_results(), FinalizeOutcome::NoAnswers));
    assert!(!m.is_active());
    assert!(matches!(m.finalize_results(), FinalizeOutcome::NoActiveQuiz));
}

#[test]
fn finalize_then_submit_reports_no_active_quiz() {
    let mut m = QuizManager::new();
    assert_eq!(m.start(question('B')), Ok(()));
    assert_eq!(m.submit_answer(1, 'A'), Ok(()));
    let _ = m.finalize_results();
    assert_eq!(m.submit_answer(1, 'A'), Err(QuizError::NoActiveQuiz));
    assert_eq!(m.submit_answer(2, 'B'), Err(QuizError::NoActiveQuiz));
}

#[test]
fn set_quiz_overwrites_and_clears_answers() {
    let mut m = QuizManager::new();
    m.set_quiz(question('A'));
    m.set_answer(1, 'A');
    assert!(m.has_user_answered(1));
    m.set_quiz(question('B'));
    assert!(!m.has_user_answered(1));
    assert!(m.is_active());
}

#[test]
fn malformed_correct_identifier_is_rejected() {
    assert!(QuizQuestion::new("q".to_string(), options(), 'E').is_none());
    assert!(QuizQuestion::new("q".to_string(), options(), '1').is_none());
    assert!(QuizQuestion::new("q".to_string(), options(), 'b').is_some());
}

#[test]
fn duplicate_question_preserves_content() {
    let q = question('D');
    let copy = q.duplicate();
    assert_eq!(copy.question, "q");
    assert_eq!(copy.options.b, "y");
    assert_eq!(copy.correct, 'D');
}
