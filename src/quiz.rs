//! The rules of the naming quiz: one answer per entity, compared without
//! regard to case, ending at the first wrong answer.
use crate::normalize::{names_of, Country};
use vstd::prelude::*;

verus! {

/// The text of `s` without its leading and trailing whitespace.
pub uninterp spec fn trim_of(s: Seq<char>) -> Seq<char>;

/// The lowercase form of `s`, as Unicode defines it.
pub uninterp spec fn lower_of(s: Seq<char>) -> Seq<char>;

/// Relies on `str::trim`: the result depends on the characters alone.
#[verifier::external_body]
fn trimmed(s: &str) -> (r: &str)
    ensures
        r@ == trim_of(s@),
{
    s.trim()
}

/// Relies on `str::to_lowercase`: the result depends on the characters alone.
#[verifier::external_body]
fn lowercase(s: &str) -> (r: String)
    ensures
        r@ == lower_of(s@),
{
    s.to_lowercase()
}

/// Whether a typed line answers for the entity named `name`: the line less
/// surrounding whitespace and the name agree once both are lowercased.
pub open spec fn answer_ok(line: Seq<char>, name: Seq<char>) -> bool {
    lower_of(trim_of(line)) == lower_of(name)
}

/// Whether two already folded texts agree.
pub fn answer_matches(folded_answer: &str, folded_name: &str) -> (r: bool)
    ensures
        r == (folded_answer@ == folded_name@),
{
    folded_answer.to_owned() == folded_name.to_owned()
}

/// Whether `line` is a right answer for the entity named `name`.
pub fn check_answer(line: &str, name: &str) -> (r: bool)
    ensures
        r == answer_ok(line@, name@),
{
    let answer = lowercase(trimmed(line));
    let expected = lowercase(name);
    answer_matches(answer.as_str(), expected.as_str())
}

/// What the quiz reports after one answer.
#[derive(Clone, Debug)]
pub enum QuizStep {
    /// The answer was right; `correct` of `total` have been named so far.
    Correct { correct: usize, total: usize },
    /// The answer was wrong and the quiz is over; `answer` was expected.
    Wrong { answer: String },
}

/// Judges the answer `line` given for the entity at position `asked`, after
/// every earlier entity was named correctly.
pub fn quiz_step(countries: &Vec<Country>, asked: usize, line: &str) -> (r: QuizStep)
    requires
        asked < countries@.len(),
    ensures
        answer_ok(line@, countries@[asked as int].name@) ==> r == (QuizStep::Correct {
            correct: (asked + 1) as usize,
            total: countries@.len() as usize,
        }),
        !answer_ok(line@, countries@[asked as int].name@) ==> (r matches QuizStep::Wrong { answer }
            && answer@ == countries@[asked as int].name@),
{
    let total = countries.len();
    if check_answer(line, countries[asked].name.as_str()) {
        QuizStep::Correct { correct: asked + 1, total }
    } else {
        QuizStep::Wrong { answer: countries[asked].name.clone() }
    }
}

/// The line given for question `i`; an exhausted input reads as an empty line.
pub open spec fn line_at(lines: Seq<Seq<char>>, i: int) -> Seq<char> {
    if 0 <= i < lines.len() {
        lines[i]
    } else {
        seq![]
    }
}

/// The position of the first entity, from `i` on, that is not named right;
/// the length of `names` if every one is.
pub open spec fn first_miss(names: Seq<Seq<char>>, lines: Seq<Seq<char>>, i: nat) -> nat
    decreases names.len() - i,
{
    if i >= names.len() {
        names.len()
    } else if !answer_ok(line_at(lines, i as int), names[i as int]) {
        i
    } else {
        first_miss(names, lines, i + 1)
    }
}

/// The outcome of a whole quiz.
#[derive(Clone, Debug)]
pub struct QuizReport {
    /// How many entities were named correctly before the quiz ended.
    pub correct: usize,
    /// How many entities the quiz had.
    pub total: usize,
    /// The expected name at the first wrong answer, if there was one.
    pub missed: Option<String>,
}

/// Plays the quiz over `countries` with the answers `lines`, one per entity
/// in order, stopping at the first wrong answer.
pub fn run_quiz(countries: &Vec<Country>, lines: &Vec<String>) -> (r: QuizReport)
    ensures
        r.total == countries@.len(),
        r.correct == first_miss(names_of(countries@), lines@.map_values(|s: String| s@), 0),
        r.correct < r.total ==> (r.missed matches Some(m) && m@ == countries@[r.correct as int].name@),
        r.correct == r.total ==> r.missed is None,
{
    let ghost names = names_of(countries@);
    let ghost answers = lines@.map_values(|s: String| s@);
    let mut i: usize = 0;
    while i < countries.len()
        invariant
            i <= countries@.len(),
            names == names_of(countries@),
            answers == lines@.map_values(|s: String| s@),
            first_miss(names, answers, 0) == first_miss(names, answers, i as nat),
        decreases countries@.len() - i,
    {
        let line: &str = if i < lines.len() {
            lines[i].as_str()
        } else {
            proof {
                reveal_strlit("");
            }
            ""
        };
        assert(line@ =~= line_at(answers, i as int));
        assert(names[i as int] == countries@[i as int].name@);
        let step = quiz_step(countries, i, line);
        match step {
            QuizStep::Correct { .. } => {
                assert(answer_ok(line_at(answers, i as int), names[i as int]));
            },
            QuizStep::Wrong { answer } => {
                return QuizReport { correct: i, total: countries.len(), missed: Some(answer) };
            },
        }
        i = i + 1;
    }
    QuizReport { correct: i, total: countries.len(), missed: None }
}

} // verus!
