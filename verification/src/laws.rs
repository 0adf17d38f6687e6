//! The session guarantees, stated and proved over the spec-level
//! transitions that the store's operations are specified by.

use crate::quiz_manager::{
    choice_matches, finalize_report, idle_view, is_choice_char, lower_choice, submit_step,
    start_step, upper_choice, QuestionView, QuizError, ReportView, SessionView,
};
use vstd::prelude::*;

verus! {

/// The state after a whole sequence of start attempts, applied in
/// their committed (linearized) order.
pub open spec fn run_starts(s: SessionView, qs: Seq<QuestionView>) -> SessionView
    decreases qs.len(),
{
    if qs.len() == 0 {
        s
    } else {
        run_starts(start_step(s, qs[0]).0, qs.drop_first())
    }
}

/// The results that a sequence of start attempts receives, in the same
/// order.
pub open spec fn start_results(s: SessionView, qs: Seq<QuestionView>) -> Seq<
    Result<(), QuizError>,
>
    decreases qs.len(),
{
    if qs.len() == 0 {
        Seq::empty()
    } else {
        seq![start_step(s, qs[0]).1] + start_results(start_step(s, qs[0]).0, qs.drop_first())
    }
}

/// While a quiz is active, every start attempt is refused and the
/// state never moves.
proof fn lemma_starts_while_active(s: SessionView, qs: Seq<QuestionView>)
    requires
        s.quiz is Some,
    ensures
        run_starts(s, qs) == s,
        start_results(s, qs).len() == qs.len(),
        forall|i: int|
            0 <= i < qs.len() ==> start_results(s, qs)[i] == Err::<(), QuizError>(
                QuizError::AlreadyActive,
            ),
    decreases qs.len(),
{
    if qs.len() > 0 {
        lemma_starts_while_active(s, qs.drop_first());
        assert forall|i: int|
            0 <= i < qs.len() implies start_results(s, qs)[i] == Err::<(), QuizError>(
            QuizError::AlreadyActive,
        ) by {
            if i >= 1 {
                assert(start_results(s, qs)[i] == start_results(s, qs.drop_first())[i - 1]);
            }
        }
    }
}

/// Of any sequence of start attempts committed while the session is
/// idle, exactly the first succeeds: every later one is refused with
/// `AlreadyActive`, and the session ends active with the first
/// question.
pub proof fn lemma_start_exclusive(s: SessionView, qs: Seq<QuestionView>)
    requires
        s.quiz is None,
        qs.len() >= 1,
    ensures
        start_results(s, qs).len() == qs.len(),
        start_results(s, qs)[0] == Ok::<(), QuizError>(()),
        forall|i: int|
            1 <= i < qs.len() ==> start_results(s, qs)[i] == Err::<(), QuizError>(
                QuizError::AlreadyActive,
            ),
        run_starts(s, qs).quiz == Some(qs[0]),
{
    let s1 = start_step(s, qs[0]).0;
    lemma_starts_while_active(s1, qs.drop_first());
    assert forall|i: int|
        1 <= i < qs.len() implies start_results(s, qs)[i] == Err::<(), QuizError>(
        QuizError::AlreadyActive,
    ) by {
        assert(start_results(s, qs)[i] == start_results(s1, qs.drop_first())[i - 1]);
    }
}

/// A participant's first submission to an active session is recorded;
/// a second one from the same participant is refused with
/// `AlreadyAnswered` and leaves the first answer unchanged.
pub proof fn lemma_at_most_one_answer(s: SessionView, p: u64, c1: char, c2: char)
    requires
        s.wf(),
        s.quiz is Some,
        !s.answered(p),
    ensures
        ({
            let (s1, r1) = submit_step(s, p, c1);
            let (s2, r2) = submit_step(s1, p, c2);
            &&& r1 == Ok::<(), QuizError>(())
            &&& s1.answered(p) && s1.answer_of(p) == c1
            &&& r2 == Err::<(), QuizError>(QuizError::AlreadyAnswered)
            &&& s2 == s1 && s2.answer_of(p) == c1
        }),
{
    let (s1, r1) = submit_step(s, p, c1);
    assert(s1.answers[s.answers.len() as int] == (p, c1));
    assert(s1.answered(p));
    let i = choose|i: int| 0 <= i < s1.answers.len() && s1.answers[i].0 == p;
    if i < s.answers.len() {
        assert(s.answers[i].0 == p);
        assert(false);
    }
    assert(s1.answer_of(p) == c1);
}

/// Once a participant has any answer recorded, every further
/// submission is refused without a change, whatever it chooses.
pub proof fn lemma_duplicate_answer_rejected(s: SessionView, p: u64, c: char)
    requires
        s.quiz is Some,
        s.answered(p),
    ensures
        submit_step(s, p, c) == (s, Err::<(), QuizError>(QuizError::AlreadyAnswered)),
{
}

/// Finalizing fully resets the session: the state it leaves behind is
/// the idle one, on which any submission is refused with `NoActiveQuiz`
/// and a second finalize reports no active quiz.
pub proof fn lemma_finalize_fully_resets(p: u64, c: char)
    ensures
        submit_step(idle_view(), p, c) == (
            idle_view(),
            Err::<(), QuizError>(QuizError::NoActiveQuiz),
        ),
        finalize_report(idle_view()) == ReportView::NoActiveQuiz,
{
}

/// Grading compares option labels case-insensitively: whether a
/// submission matches the correct label does not depend on the case of
/// either side.
pub proof fn lemma_choice_match_case_insensitive(submitted: char, correct: char)
    requires
        is_choice_char(submitted),
        is_choice_char(correct),
    ensures
        choice_matches(submitted, correct) == choice_matches(upper_choice(submitted), correct),
        choice_matches(submitted, correct) == choice_matches(lower_choice(submitted), correct),
        choice_matches(submitted, correct) == choice_matches(submitted, upper_choice(correct)),
        choice_matches(submitted, correct) == choice_matches(submitted, lower_choice(correct)),
{
}

} // verus!
