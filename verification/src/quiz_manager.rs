//! The session store: one shared quiz session behind atomic operations.
//!
//! The store owns the whole session state (the current question and the
//! recorded answers) and serializes every transition. Callers that run
//! concurrently are expected to hold the store behind one exclusive lock;
//! every operation here is a single synchronous read-modify-write, so the
//! committed transitions form a linear history described exactly by the
//! spec-level step functions ([`start_step`], [`submit_step`],
//! [`finalize_report`]).

use vstd::prelude::*;

verus! {

// ---------------------------------------------------------------------
// Choice identifiers
// ---------------------------------------------------------------------

/// The characters accepted as an answer choice: the four option labels,
/// in either case.
pub open spec fn is_choice_char(c: char) -> bool {
    c == 'a' || c == 'b' || c == 'c' || c == 'd' || c == 'A' || c == 'B' || c == 'C' || c == 'D'
}

/// The lower-case form of an option label (identity off the labels).
pub open spec fn lower_choice(c: char) -> char {
    if c == 'A' {
        'a'
    } else if c == 'B' {
        'b'
    } else if c == 'C' {
        'c'
    } else if c == 'D' {
        'd'
    } else {
        c
    }
}

/// The upper-case form of an option label (identity off the labels).
pub open spec fn upper_choice(c: char) -> char {
    if c == 'a' {
        'A'
    } else if c == 'b' {
        'B'
    } else if c == 'c' {
        'C'
    } else if c == 'd' {
        'D'
    } else {
        c
    }
}

/// Whether a submitted choice designates the correct option: option
/// labels compare case-insensitively.
pub open spec fn choice_matches(submitted: char, correct: char) -> bool {
    lower_choice(submitted) == lower_choice(correct)
}

/// Runtime test for [`is_choice_char`].
pub fn choice_char_valid(c: char) -> (r: bool)
    ensures
        r == is_choice_char(c),
{
    c == 'a' || c == 'b' || c == 'c' || c == 'd' || c == 'A' || c == 'B' || c == 'C' || c == 'D'
}

/// Runtime counterpart of [`upper_choice`].
pub fn choice_upper(c: char) -> (r: char)
    ensures
        r == upper_choice(c),
{
    if c == 'a' {
        'A'
    } else if c == 'b' {
        'B'
    } else if c == 'c' {
        'C'
    } else if c == 'd' {
        'D'
    } else {
        c
    }
}

/// Runtime counterpart of [`choice_matches`].
pub fn choice_eq(submitted: char, correct: char) -> (r: bool)
    ensures
        r == choice_matches(submitted, correct),
{
    let ls = if submitted == 'A' {
        'a'
    } else if submitted == 'B' {
        'b'
    } else if submitted == 'C' {
        'c'
    } else if submitted == 'D' {
        'd'
    } else {
        submitted
    };
    let lc = if correct == 'A' {
        'a'
    } else if correct == 'B' {
        'b'
    } else if correct == 'C' {
        'c'
    } else if correct == 'D' {
        'd'
    } else {
        correct
    };
    ls == lc
}

// ---------------------------------------------------------------------
// Questions
// ---------------------------------------------------------------------

/// The four labeled option texts of a question.
#[derive(Debug)]
pub struct QuizOptions {
    pub a: String,
    pub b: String,
    pub c: String,
    pub d: String,
}

/// Mathematical image of [`QuizOptions`].
pub struct OptionsView {
    pub a: Seq<char>,
    pub b: Seq<char>,
    pub c: Seq<char>,
    pub d: Seq<char>,
}

impl View for QuizOptions {
    type V = OptionsView;

    open spec fn view(&self) -> OptionsView {
        OptionsView { a: self.a@, b: self.b@, c: self.c@, d: self.d@ }
    }
}

/// A quiz question, immutable once created: the question text, four
/// labeled options, and the designated correct option label.
#[derive(Debug)]
pub struct QuizQuestion {
    pub question: String,
    pub options: QuizOptions,
    pub correct: char,
}

/// Mathematical image of [`QuizQuestion`].
pub struct QuestionView {
    pub question: Seq<char>,
    pub options: OptionsView,
    pub correct: char,
}

impl View for QuizQuestion {
    type V = QuestionView;

    open spec fn view(&self) -> QuestionView {
        QuestionView { question: self.question@, options: self.options@, correct: self.correct }
    }
}

/// A question is well formed when its correct-option identifier is one
/// of the four defined option labels.
pub open spec fn question_wf(q: QuestionView) -> bool {
    is_choice_char(q.correct)
}

impl QuizQuestion {
    /// Boundary constructor: accepts the parts of a parsed payload and
    /// yields a question only when the correct-option identifier is one
    /// of the four defined labels; a payload with any other identifier
    /// is malformed.
    pub fn new(question: String, options: QuizOptions, correct: char) -> (r: Option<QuizQuestion>)
        ensures
            is_choice_char(correct) ==> (r matches Some(q) && q@ == (QuestionView {
                question: question@,
                options: options@,
                correct: correct,
            })),
            !is_choice_char(correct) ==> r is None,
    {
        if choice_char_valid(correct) {
            Some(QuizQuestion { question, options, correct })
        } else {
            None
        }
    }

    /// An identical copy, related to the original through the view.
    pub fn duplicate(&self) -> (r: QuizQuestion)
        ensures
            r@ == self@,
    {
        QuizQuestion {
            question: self.question.clone(),
            options: QuizOptions {
                a: self.options.a.clone(),
                b: self.options.b.clone(),
                c: self.options.c.clone(),
                d: self.options.d.clone(),
            },
            correct: self.correct,
        }
    }
}

// ---------------------------------------------------------------------
// Errors and results
// ---------------------------------------------------------------------

/// The recoverable failures of the session store.
#[derive(Clone, Copy, PartialEq, Eq, Structural, Debug)]
pub enum QuizError {
    /// A start was attempted while a quiz is already running.
    AlreadyActive,
    /// An answer or a results request arrived with nothing running.
    NoActiveQuiz,
    /// The participant has already recorded an answer this session.
    AlreadyAnswered,
}

/// One graded answer of the results summary.
#[derive(Clone, Copy, PartialEq, Eq, Structural, Debug)]
pub struct AnswerResult {
    pub participant: u64,
    pub choice: char,
    pub correct: bool,
}

/// The results summary of a finalized session: the correct option label
/// (upper case) and every recorded answer, graded.
pub struct ResultsSummary {
    pub correct: char,
    pub entries: Vec<AnswerResult>,
}

/// Mathematical image of [`ResultsSummary`].
pub struct SummaryView {
    pub correct: char,
    pub entries: Seq<AnswerResult>,
}

impl View for ResultsSummary {
    type V = SummaryView;

    open spec fn view(&self) -> SummaryView {
        SummaryView { correct: self.correct, entries: self.entries@ }
    }
}

/// What finalizing reports. A request with nothing running is a
/// legitimate terminal report, not a hard error, so it stands beside
/// the summary rather than in [`QuizError`].
pub enum FinalizeOutcome {
    /// No quiz was running (never started, or already finalized).
    NoActiveQuiz,
    /// A quiz was running but nobody had answered.
    NoAnswers,
    /// A quiz was running; every recorded answer is graded.
    Summary(ResultsSummary),
}

/// Mathematical image of [`FinalizeOutcome`].
pub enum ReportView {
    NoActiveQuiz,
    NoAnswers,
    Summary(SummaryView),
}

impl View for FinalizeOutcome {
    type V = ReportView;

    open spec fn view(&self) -> ReportView {
        match self {
            FinalizeOutcome::NoActiveQuiz => ReportView::NoActiveQuiz,
            FinalizeOutcome::NoAnswers => ReportView::NoAnswers,
            FinalizeOutcome::Summary(s) => ReportView::Summary(s@),
        }
    }
}

// ---------------------------------------------------------------------
// The session state and its transitions, spec side
// ---------------------------------------------------------------------

/// The abstract session state: the current question, if any, and the
/// recorded answers in submission order.
pub struct SessionView {
    pub quiz: Option<QuestionView>,
    pub answers: Seq<(u64, char)>,
}

impl SessionView {
    /// Whether participant `p` has an answer recorded.
    pub open spec fn answered(self, p: u64) -> bool {
        exists|i: int| 0 <= i < self.answers.len() && self.answers[i].0 == p
    }

    /// The answer recorded for participant `p` (meaningful only when
    /// `answered(p)` holds).
    pub open spec fn answer_of(self, p: u64) -> char {
        self.answers[choose|i: int| 0 <= i < self.answers.len() && self.answers[i].0 == p].1
    }

    /// The session invariant: a set question is well formed, every
    /// recorded answer is a defined option label, each participant has
    /// at most one entry, and an idle session holds no answers.
    pub open spec fn wf(self) -> bool {
        &&& (forall|i: int, j: int|
            0 <= i < j < self.answers.len() ==> self.answers[i].0 != self.answers[j].0)
        &&& (forall|i: int| 0 <= i < self.answers.len() ==> is_choice_char(#[trigger] self.answers[i].1))
        &&& match self.quiz {
            Some(q) => question_wf(q),
            None => self.answers.len() == 0,
        }
    }
}

/// The idle session: no question, no answers.
pub open spec fn idle_view() -> SessionView {
    SessionView { quiz: None, answers: Seq::empty() }
}

/// What starting a quiz does: if one is already active nothing changes
/// and the caller learns so; otherwise the question is set and the
/// answers are cleared.
pub open spec fn start_step(s: SessionView, q: QuestionView) -> (SessionView, Result<
    (),
    QuizError,
>) {
    match s.quiz {
        Some(_) => (s, Err(QuizError::AlreadyActive)),
        None => (SessionView { quiz: Some(q), answers: Seq::empty() }, Ok(())),
    }
}

/// What submitting an answer does: rejected with nothing running or
/// when the participant already answered (no change either way);
/// otherwise the answer is appended.
pub open spec fn submit_step(s: SessionView, p: u64, c: char) -> (SessionView, Result<
    (),
    QuizError,
>) {
    if s.quiz is None {
        (s, Err(QuizError::NoActiveQuiz))
    } else if s.answered(p) {
        (s, Err(QuizError::AlreadyAnswered))
    } else {
        (SessionView { quiz: s.quiz, answers: s.answers.push((p, c)) }, Ok(()))
    }
}

/// Every recorded answer, graded case-insensitively against the correct
/// option label.
pub open spec fn grade(answers: Seq<(u64, char)>, correct: char) -> Seq<AnswerResult> {
    answers.map(
        |i: int, a: (u64, char)|
            AnswerResult { participant: a.0, choice: a.1, correct: choice_matches(a.1, correct) },
    )
}

/// What finalizing reports for a given prior state. The state after
/// finalizing is always [`idle_view`].
pub open spec fn finalize_report(s: SessionView) -> ReportView {
    match s.quiz {
        None => ReportView::NoActiveQuiz,
        Some(q) => if s.answers.len() == 0 {
            ReportView::NoAnswers
        } else {
            ReportView::Summary(
                SummaryView { correct: upper_choice(q.correct), entries: grade(s.answers, q.correct) },
            )
        },
    }
}

// ---------------------------------------------------------------------
// The session store, exec side
// ---------------------------------------------------------------------

/// The session store. It exclusively owns the session state; all reads
/// and mutations go through the operations below.
pub struct QuizManager {
    current_quiz: Option<QuizQuestion>,
    answers: Vec<(u64, char)>,
}

impl View for QuizManager {
    type V = SessionView;

    closed spec fn view(&self) -> SessionView {
        SessionView {
            quiz: match self.current_quiz {
                Some(q) => Some(q@),
                None => None,
            },
            answers: self.answers@,
        }
    }
}

impl QuizManager {
    /// A fresh store: idle, nothing recorded.
    pub fn new() -> (r: QuizManager)
        ensures
            r@ == idle_view(),
            r@.wf(),
    {
        let r = QuizManager { current_quiz: None, answers: Vec::new() };
        proof {
            assert(r@.answers =~= idle_view().answers);
        }
        r
    }

    /// Whether a quiz is currently active.
    pub fn is_active(&self) -> (b: bool)
        ensures
            b == (self@.quiz is Some),
    {
        self.current_quiz.is_some()
    }

    /// Sets the current question and clears all answers, whatever the
    /// prior state. This is the raw overwrite; [`Self::start`] is the
    /// checked transition.
    pub fn set_quiz(&mut self, quiz: QuizQuestion)
        requires
            question_wf(quiz@),
        ensures
            final(self)@ == (SessionView { quiz: Some(quiz@), answers: Seq::empty() }),
            final(self)@.wf(),
    {
        self.current_quiz = Some(quiz);
        self.answers = Vec::new();
        proof {
            assert(self@.answers =~= Seq::<(u64, char)>::empty());
        }
    }

    /// Starts a quiz: refused without a change when one is already
    /// active, otherwise the question is set and the answers cleared.
    pub fn start(&mut self, quiz: QuizQuestion) -> (r: Result<(), QuizError>)
        requires
            old(self)@.wf(),
            question_wf(quiz@),
        ensures
            (final(self)@, r) == start_step(old(self)@, quiz@),
            final(self)@.wf(),
    {
        if self.current_quiz.is_some() {
            Err(QuizError::AlreadyActive)
        } else {
            self.set_quiz(quiz);
            Ok(())
        }
    }

    /// Records an answer. The caller has already established that a
    /// quiz is active, that the participant has not answered yet, and
    /// that the choice is a defined option label; [`Self::submit_answer`]
    /// is the checked transition.
    pub fn set_answer(&mut self, user_id: u64, answer: char)
        requires
            old(self)@.wf(),
            old(self)@.quiz is Some,
            !old(self)@.answered(user_id),
            is_choice_char(answer),
        ensures
            final(self)@ == (SessionView {
                quiz: old(self)@.quiz,
                answers: old(self)@.answers.push((user_id, answer)),
            }),
            final(self)@.wf(),
    {
        self.answers.push((user_id, answer));
        proof {
            let s = old(self)@;
            let t = self@;
            assert(t.answers =~= s.answers.push((user_id, answer)));
            assert forall|i: int, j: int|
                0 <= i < j < t.answers.len() implies t.answers[i].0 != t.answers[j].0 by {
                if j == t.answers.len() - 1 {
                    assert(!s.answered(user_id));
                    assert(t.answers[i] == s.answers[i]);
                }
            }
        }
    }

    /// Whether participant `user_id` has an answer recorded.
    pub fn has_user_answered(&self, user_id: u64) -> (b: bool)
        ensures
            b == self@.answered(user_id),
    {
        let mut i: usize = 0;
        while i < self.answers.len()
            invariant
                0 <= i <= self.answers@.len(),
                forall|j: int| 0 <= j < i ==> self.answers@[j].0 != user_id,
            decreases self.answers@.len() - i,
        {
            if self.answers[i].0 == user_id {
                proof {
                    assert(self@.answers[i as int].0 == user_id);
                }
                return true;
            }
            i += 1;
        }
        false
    }

    /// Submits an answer: rejected with nothing running or when the
    /// participant already answered (no change either way), otherwise
    /// recorded. Concurrent submissions of distinct participants both
    /// land, serialized by the store's owner.
    pub fn submit_answer(&mut self, user_id: u64, choice: char) -> (r: Result<(), QuizError>)
        requires
            old(self)@.wf(),
            is_choice_char(choice),
        ensures
            (final(self)@, r) == submit_step(old(self)@, user_id, choice),
            final(self)@.wf(),
    {
        if self.current_quiz.is_none() {
            Err(QuizError::NoActiveQuiz)
        } else if self.has_user_answered(user_id) {
            Err(QuizError::AlreadyAnswered)
        } else {
            self.set_answer(user_id, choice);
            Ok(())
        }
    }

    /// Finalizes the session: reports what [`finalize_report`] states
    /// of the prior state and resets the session to idle. Exactly one
    /// of any group of racing callers observes the active state; every
    /// later one observes idle and gets the no-active-quiz report.
    pub fn finalize_results(&mut self) -> (r: FinalizeOutcome)
        requires
            old(self)@.wf(),
        ensures
            final(self)@ == idle_view(),
            final(self)@.wf(),
            r@ == finalize_report(old(self)@),
    {
        let ghost s = old(self)@;
        let quiz = match &self.current_quiz {
            Some(q) => q,
            None => {
                proof {
                    assert(self@.answers =~= idle_view().answers);
                }
                return FinalizeOutcome::NoActiveQuiz;
            },
        };
        let correct = quiz.correct;
        if self.answers.len() == 0 {
            proof {
                assert(self@.answers =~= Seq::<(u64, char)>::empty());
            }
            self.current_quiz = None;
            return FinalizeOutcome::NoAnswers;
        }
        let mut entries: Vec<AnswerResult> = Vec::new();
        let mut i: usize = 0;
        while i < self.answers.len()
            invariant
                self@ == s,
                s.quiz matches Some(q) && q.correct == correct,
                0 <= i <= self.answers@.len(),
                entries@ =~= grade(s.answers.take(i as int), correct),
            decreases self.answers@.len() - i,
        {
            let (uid, ans) = self.answers[i];
            let graded = AnswerResult {
                participant: uid,
                choice: ans,
                correct: choice_eq(ans, correct),
            };
            entries.push(graded);
            proof {
                assert(s.answers.take(i + 1 as int) =~= s.answers.take(i as int).push(
                    s.answers[i as int],
                ));
                assert(entries@ =~= grade(s.answers.take(i + 1 as int), correct));
            }
            i += 1;
        }
        proof {
            assert(s.answers.take(s.answers.len() as int) =~= s.answers);
        }
        self.current_quiz = None;
        self.answers = Vec::new();
        proof {
            assert(self@.answers =~= idle_view().answers);
        }
        FinalizeOutcome::Summary(ResultsSummary { correct: choice_upper(correct), entries })
    }
}

} // verus!
