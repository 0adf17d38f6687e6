//! Rendering the results report as summary text.
//!
//! The text names the correct option label (upper case) and lists, for
//! every recorded answer, whether it matched, or one of the two
//! degenerate messages when there was nothing to grade.

use crate::quiz_manager::{
    finalize_report, grade, is_choice_char, upper_choice, AnswerResult, FinalizeOutcome,
    ReportView, SessionView,
};
use vstd::prelude::*;
use vstd::string::StringExecFns;

verus! {

// ---------------------------------------------------------------------
// Decimal rendering of participant identifiers
// ---------------------------------------------------------------------

/// The decimal digit character for a value below ten.
pub open spec fn digit_char(d: int) -> char {
    if d == 0 {
        '0'
    } else if d == 1 {
        '1'
    } else if d == 2 {
        '2'
    } else if d == 3 {
        '3'
    } else if d == 4 {
        '4'
    } else if d == 5 {
        '5'
    } else if d == 6 {
        '6'
    } else if d == 7 {
        '7'
    } else if d == 8 {
        '8'
    } else if d == 9 {
        '9'
    } else {
        arbitrary()
    }
}

/// The decimal rendering of a non-negative number, most significant
/// digit first, without leading zeros (a single zero for zero).
pub open spec fn dec_digits(n: int) -> Seq<char>
    decreases n,
{
    if n < 10 {
        seq![digit_char(n)]
    } else {
        dec_digits(n / 10).push(digit_char(n % 10))
    }
}

/// The digit character of a value below ten, as a string slice.
fn digit_str(d: u64) -> (r: &'static str)
    requires
        d < 10,
    ensures
        r@ == seq![digit_char(d as int)],
{
    if d == 0 {
        proof {
            reveal_strlit("0");
            assert("0"@ =~= seq![digit_char(0)]);
        }
        "0"
    } else if d == 1 {
        proof {
            reveal_strlit("1");
            assert("1"@ =~= seq![digit_char(1)]);
        }
        "1"
    } else if d == 2 {
        proof {
            reveal_strlit("2");
            assert("2"@ =~= seq![digit_char(2)]);
        }
        "2"
    } else if d == 3 {
        proof {
            reveal_strlit("3");
            assert("3"@ =~= seq![digit_char(3)]);
        }
        "3"
    } else if d == 4 {
        proof {
            reveal_strlit("4");
            assert("4"@ =~= seq![digit_char(4)]);
        }
        "4"
    } else if d == 5 {
        proof {
            reveal_strlit("5");
            assert("5"@ =~= seq![digit_char(5)]);
        }
        "5"
    } else if d == 6 {
        proof {
            reveal_strlit("6");
            assert("6"@ =~= seq![digit_char(6)]);
        }
        "6"
    } else if d == 7 {
        proof {
            reveal_strlit("7");
            assert("7"@ =~= seq![digit_char(7)]);
        }
        "7"
    } else if d == 8 {
        proof {
            reveal_strlit("8");
            assert("8"@ =~= seq![digit_char(8)]);
        }
        "8"
    } else {
        proof {
            reveal_strlit("9");
            assert("9"@ =~= seq![digit_char(9)]);
        }
        "9"
    }
}

/// Renders a number in decimal, exactly as [`dec_digits`] states.
pub fn u64_to_string(n: u64) -> (s: String)
    ensures
        s@ == dec_digits(n as int),
    decreases n,
{
    if n < 10 {
        String::from_str(digit_str(n))
    } else {
        let rest = u64_to_string(n / 10);
        let s = rest.concat(digit_str(n % 10));
        proof {
            assert(s@ =~= dec_digits(n as int / 10).push(digit_char(n as int % 10)));
        }
        s
    }
}

// ---------------------------------------------------------------------
// Option labels
// ---------------------------------------------------------------------

/// The one-character text of an option label.
pub open spec fn choice_label(c: char) -> Seq<char> {
    if c == 'a' {
        "a"@
    } else if c == 'b' {
        "b"@
    } else if c == 'c' {
        "c"@
    } else if c == 'd' {
        "d"@
    } else if c == 'A' {
        "A"@
    } else if c == 'B' {
        "B"@
    } else if c == 'C' {
        "C"@
    } else if c == 'D' {
        "D"@
    } else {
        arbitrary()
    }
}

/// An option label as a string slice.
fn choice_str(c: char) -> (r: &'static str)
    requires
        is_choice_char(c),
    ensures
        r@ == choice_label(c),
{
    if c == 'a' {
        "a"
    } else if c == 'b' {
        "b"
    } else if c == 'c' {
        "c"
    } else if c == 'd' {
        "d"
    } else if c == 'A' {
        "A"
    } else if c == 'B' {
        "B"
    } else if c == 'C' {
        "C"
    } else {
        "D"
    }
}

// ---------------------------------------------------------------------
// The report text
// ---------------------------------------------------------------------

/// The line reporting one graded answer.
pub open spec fn entry_line(e: AnswerResult) -> Seq<char> {
    "<@"@ + dec_digits(e.participant as int) + "> answered "@ + choice_label(e.choice) + (
    if e.correct {
        " and got it right!\n"@
    } else {
        " and got it wrong!\n"@
    })
}

/// The lines of all graded answers, in recording order.
pub open spec fn entry_lines(es: Seq<AnswerResult>) -> Seq<char>
    decreases es.len(),
{
    if es.len() == 0 {
        Seq::empty()
    } else {
        entry_lines(es.drop_last()) + entry_line(es.last())
    }
}

/// A report whose option labels are all defined ones; reports produced
/// by finalizing a well-formed session satisfy this.
pub open spec fn report_wf(r: ReportView) -> bool {
    match r {
        ReportView::Summary(s) => is_choice_char(s.correct) && (forall|i: int|
            0 <= i < s.entries.len() ==> is_choice_char(#[trigger] s.entries[i].choice)),
        _ => true,
    }
}

/// The full response text for a finalize report.
pub open spec fn render_report(r: ReportView) -> Seq<char> {
    match r {
        ReportView::NoActiveQuiz => "No active quiz running."@,
        ReportView::NoAnswers => "No answers submitted yet."@,
        ReportView::Summary(s) => "**Correct answer: "@ + choice_label(s.correct)
            + "**\n**Results:**\n"@ + entry_lines(s.entries)
            + "\n***Quiz ended. Thank you for participating!***"@,
    }
}

/// Finalizing a well-formed session always yields a well-formed report.
pub proof fn lemma_finalize_report_wf(s: SessionView)
    requires
        s.wf(),
    ensures
        report_wf(finalize_report(s)),
{
    match s.quiz {
        None => {},
        Some(q) => {
            if s.answers.len() > 0 {
                let es = grade(s.answers, q.correct);
                assert forall|i: int| 0 <= i < es.len() implies is_choice_char(
                    #[trigger] es[i].choice,
                ) by {
                    assert(es[i].choice == s.answers[i].1);
                }
            }
        },
    }
}

/// Renders a finalize report, exactly as [`render_report`] states.
pub fn render_report_string(report: &FinalizeOutcome) -> (msg: String)
    requires
        report_wf(report@),
    ensures
        msg@ == render_report(report@),
{
    match report {
        FinalizeOutcome::NoActiveQuiz => String::from_str("No active quiz running."),
        FinalizeOutcome::NoAnswers => String::from_str("No answers submitted yet."),
        FinalizeOutcome::Summary(summary) => {
            let ghost sv = summary@;
            let mut msg = String::from_str("**Correct answer: ");
            msg.append(choice_str(summary.correct));
            msg.append("**\n**Results:**\n");
            let ghost header = "**Correct answer: "@ + choice_label(sv.correct)
                + "**\n**Results:**\n"@;
            proof {
                assert(msg@ =~= header + entry_lines(sv.entries.take(0)));
            }
            let mut i: usize = 0;
            while i < summary.entries.len()
                invariant
                    report_wf(report@),
                    report@ == ReportView::Summary(sv),
                    sv == summary@,
                    0 <= i <= sv.entries.len(),
                    header == "**Correct answer: "@ + choice_label(sv.correct)
                        + "**\n**Results:**\n"@,
                    msg@ == header + entry_lines(sv.entries.take(i as int)),
                decreases sv.entries.len() - i,
            {
                let e = summary.entries[i];
                msg.append("<@");
                let num = u64_to_string(e.participant);
                msg.append(num.as_str());
                msg.append("> answered ");
                msg.append(choice_str(e.choice));
                if e.correct {
                    msg.append(" and got it right!\n");
                } else {
                    msg.append(" and got it wrong!\n");
                }
                proof {
                    let pre = sv.entries.take(i as int);
                    let post = sv.entries.take(i + 1 as int);
                    assert(post.drop_last() =~= pre);
                    assert(post.last() == sv.entries[i as int]);
                    assert(entry_lines(post) == entry_lines(pre) + entry_line(
                        sv.entries[i as int],
                    ));
                    assert(msg@ =~= header + entry_lines(post));
                }
                i += 1;
            }
            proof {
                assert(sv.entries.take(sv.entries.len() as int) =~= sv.entries);
            }
            msg.append("\n***Quiz ended. Thank you for participating!***");
            proof {
                assert(msg@ =~= render_report(report@));
            }
            msg
        },
    }
}

} // verus!
