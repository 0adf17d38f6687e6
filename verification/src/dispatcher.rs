//! The request dispatcher: validates external requests, drives the
//! session store under its contract, and maps store outcomes to
//! response payloads.
//!
//! The generator call itself is an external, suspendable operation and
//! happens between [`start_precheck`] and [`commit_generated`], strictly
//! outside the store; if the request is abandoned between the two, no
//! session state has changed.

use crate::quiz_manager::{
    finalize_report, idle_view, is_choice_char, question_wf, start_step, submit_step,
    FinalizeOutcome, QuizError, QuizManager, QuizQuestion,
};
use crate::render::{lemma_finalize_report_wf, render_report, render_report_string};
use crate::text::str_eq;
use vstd::prelude::*;
use vstd::string::StringExecFns;

verus! {

// ---------------------------------------------------------------------
// Difficulties and commands
// ---------------------------------------------------------------------

/// The enumerated difficulty levels a quiz may be requested at.
#[derive(Clone, Copy, PartialEq, Eq, Structural, Debug)]
pub enum QuizDifficulty {
    Easy,
    Average,
    Hard,
}

/// The difficulty a request names, if it names one.
pub open spec fn difficulty_of(s: Seq<char>) -> Option<QuizDifficulty> {
    if s == "easy"@ {
        Some(QuizDifficulty::Easy)
    } else if s == "average"@ {
        Some(QuizDifficulty::Average)
    } else if s == "hard"@ {
        Some(QuizDifficulty::Hard)
    } else {
        None
    }
}

impl QuizDifficulty {
    /// The label of this difficulty on the request surface.
    pub open spec fn label(self) -> Seq<char> {
        match self {
            QuizDifficulty::Easy => "easy"@,
            QuizDifficulty::Average => "average"@,
            QuizDifficulty::Hard => "hard"@,
        }
    }

    /// The label as an owned string.
    pub fn to_string(&self) -> (s: String)
        ensures
            s@ == self.label(),
    {
        match self {
            QuizDifficulty::Easy => String::from_str("easy"),
            QuizDifficulty::Average => String::from_str("average"),
            QuizDifficulty::Hard => String::from_str("hard"),
        }
    }

    /// Validates a requested difficulty against the enumerated set.
    pub fn from_label(s: &str) -> (r: Option<QuizDifficulty>)
        ensures
            r == difficulty_of(s@),
    {
        if str_eq(s, "easy") {
            Some(QuizDifficulty::Easy)
        } else if str_eq(s, "average") {
            Some(QuizDifficulty::Average)
        } else if str_eq(s, "hard") {
            Some(QuizDifficulty::Hard)
        } else {
            None
        }
    }
}

/// The command surface: the operations a request may name.
#[derive(Clone, Copy, PartialEq, Eq, Structural, Debug)]
pub enum QuizCommands {
    Quiz,
    Answer,
    Results,
    Leaderboard,
}

/// The command a request names, if it names one.
pub open spec fn command_of(s: Seq<char>) -> Option<QuizCommands> {
    if s == "quiz"@ {
        Some(QuizCommands::Quiz)
    } else if s == "answer"@ {
        Some(QuizCommands::Answer)
    } else if s == "results"@ {
        Some(QuizCommands::Results)
    } else if s == "leaderboard"@ {
        Some(QuizCommands::Leaderboard)
    } else {
        None
    }
}

impl QuizCommands {
    /// The name of this command on the request surface.
    pub open spec fn label(self) -> Seq<char> {
        match self {
            QuizCommands::Quiz => "quiz"@,
            QuizCommands::Answer => "answer"@,
            QuizCommands::Results => "results"@,
            QuizCommands::Leaderboard => "leaderboard"@,
        }
    }

    /// The name as an owned string.
    pub fn to_string(&self) -> (s: String)
        ensures
            s@ == self.label(),
    {
        match self {
            QuizCommands::Quiz => String::from_str("quiz"),
            QuizCommands::Answer => String::from_str("answer"),
            QuizCommands::Results => String::from_str("results"),
            QuizCommands::Leaderboard => String::from_str("leaderboard"),
        }
    }

    /// Resolves an incoming command name; unknown names are ignored by
    /// the caller.
    pub fn from_str(command: &str) -> (r: Option<QuizCommands>)
        ensures
            r == command_of(command@),
    {
        if str_eq(command, "quiz") {
            Some(QuizCommands::Quiz)
        } else if str_eq(command, "answer") {
            Some(QuizCommands::Answer)
        } else if str_eq(command, "results") {
            Some(QuizCommands::Results)
        } else if str_eq(command, "leaderboard") {
            Some(QuizCommands::Leaderboard)
        } else {
            None
        }
    }
}

// ---------------------------------------------------------------------
// Start flow
// ---------------------------------------------------------------------

/// What the start flow decides before the generator is called.
#[derive(Clone, Copy, PartialEq, Eq, Structural, Debug)]
pub enum StartPrecheck {
    /// Arguments are valid and no quiz looks active: call the generator
    /// at this difficulty.
    Proceed(QuizDifficulty),
    /// A quiz already looks active: short-circuit with a friendly
    /// message (the authoritative check is still [`commit_generated`]).
    AlreadyActive,
    /// The requested difficulty is not one of the enumerated set.
    InvalidDifficulty,
}

/// How the generator call ended, as handed back by the caller.
pub enum GenerationOutcome {
    /// The payload parsed into a well-formed question.
    Generated(QuizQuestion),
    /// The external call itself failed.
    TransportFailed,
    /// The payload could not be parsed into a question.
    Malformed,
}

/// The response payload of the start flow.
#[derive(Clone, Copy, PartialEq, Eq, Structural, Debug)]
pub enum StartResponse {
    /// The quiz was started and is now the active session.
    Started,
    /// Another quiz was already active; nothing was overwritten.
    AlreadyActive,
    /// The generator call failed; session state is untouched.
    GenerationFailed,
    /// The generator's payload was malformed; session state is
    /// untouched.
    ParseFailed,
}

/// Validates a start request and decides whether to call the generator:
/// an unknown difficulty is rejected, an active-looking session is
/// short-circuited, otherwise the caller proceeds at the parsed
/// difficulty.
pub fn start_precheck(mgr: &QuizManager, difficulty: &str) -> (r: StartPrecheck)
    ensures
        r == (match difficulty_of(difficulty@) {
            None => StartPrecheck::InvalidDifficulty,
            Some(d) => if mgr@.quiz is Some {
                StartPrecheck::AlreadyActive
            } else {
                StartPrecheck::Proceed(d)
            },
        }),
{
    match QuizDifficulty::from_label(difficulty) {
        None => StartPrecheck::InvalidDifficulty,
        Some(d) => {
            if mgr.is_active() {
                StartPrecheck::AlreadyActive
            } else {
                StartPrecheck::Proceed(d)
            }
        },
    }
}

/// Commits the generator's outcome. A failed or malformed generation
/// reports the error and leaves the session untouched; a generated
/// question is started, unless a racing start won in the meantime, in
/// which case nothing is overwritten.
pub fn commit_generated(mgr: &mut QuizManager, outcome: GenerationOutcome) -> (r: StartResponse)
    requires
        old(mgr)@.wf(),
        outcome matches GenerationOutcome::Generated(q) ==> question_wf(q@),
    ensures
        final(mgr)@.wf(),
        outcome matches GenerationOutcome::TransportFailed ==> r
            == StartResponse::GenerationFailed && final(mgr)@ == old(mgr)@,
        outcome matches GenerationOutcome::Malformed ==> r == StartResponse::ParseFailed
            && final(mgr)@ == old(mgr)@,
        outcome matches GenerationOutcome::Generated(q) ==> ({
            let (s, res) = start_step(old(mgr)@, q@);
            final(mgr)@ == s && r == (if res is Ok {
                StartResponse::Started
            } else {
                StartResponse::AlreadyActive
            })
        }),
{
    match outcome {
        GenerationOutcome::TransportFailed => StartResponse::GenerationFailed,
        GenerationOutcome::Malformed => StartResponse::ParseFailed,
        GenerationOutcome::Generated(q) => match mgr.start(q) {
            Ok(()) => StartResponse::Started,
            Err(_) => StartResponse::AlreadyActive,
        },
    }
}

// ---------------------------------------------------------------------
// Answer flow
// ---------------------------------------------------------------------

/// The response payload of the answer flow.
#[derive(Clone, Copy, PartialEq, Eq, Structural, Debug)]
pub enum AnswerResponse {
    /// The answer was recorded; the acknowledged choice is echoed back.
    Recorded(char),
    /// Nothing is running.
    NoActiveQuiz,
    /// The participant has already answered this session.
    AlreadyAnswered,
    /// The submitted choice is not one of the four option labels.
    InvalidChoice,
}

/// The response the answer flow owes for a given store outcome.
pub open spec fn answer_response_of(res: Result<(), QuizError>, choice: char) -> AnswerResponse {
    match res {
        Ok(()) => AnswerResponse::Recorded(choice),
        Err(QuizError::NoActiveQuiz) => AnswerResponse::NoActiveQuiz,
        Err(QuizError::AlreadyAnswered) => AnswerResponse::AlreadyAnswered,
        // submit_step never yields this error
        Err(QuizError::AlreadyActive) => arbitrary(),
    }
}

/// Validates a submitted choice and drives the store: an off-label
/// choice never reaches the store; otherwise the submission outcome is
/// mapped to its response.
pub fn handle_answer(mgr: &mut QuizManager, user_id: u64, choice: char) -> (r: AnswerResponse)
    requires
        old(mgr)@.wf(),
    ensures
        final(mgr)@.wf(),
        !is_choice_char(choice) ==> r == AnswerResponse::InvalidChoice && final(mgr)@ == old(mgr)@,
        is_choice_char(choice) ==> final(mgr)@ == submit_step(old(mgr)@, user_id, choice).0,
        is_choice_char(choice) ==> r == answer_response_of(
            submit_step(old(mgr)@, user_id, choice).1,
            choice,
        ),
{
    if !crate::quiz_manager::choice_char_valid(choice) {
        return AnswerResponse::InvalidChoice;
    }
    match mgr.submit_answer(user_id, choice) {
        Ok(()) => AnswerResponse::Recorded(choice),
        Err(QuizError::NoActiveQuiz) => AnswerResponse::NoActiveQuiz,
        Err(QuizError::AlreadyAnswered) => AnswerResponse::AlreadyAnswered,
        Err(QuizError::AlreadyActive) => AnswerResponse::InvalidChoice,
    }
}

// ---------------------------------------------------------------------
// Results flow
// ---------------------------------------------------------------------

/// Finalizes the session and renders the report as the response body.
pub fn handle_results(mgr: &mut QuizManager) -> (msg: String)
    requires
        old(mgr)@.wf(),
    ensures
        final(mgr)@ == idle_view(),
        final(mgr)@.wf(),
        msg@ == render_report(finalize_report(old(mgr)@)),
{
    proof {
        lemma_finalize_report_wf(old(mgr)@);
    }
    let outcome = mgr.finalize_results();
    render_report_string(&outcome)
}

} // verus!
