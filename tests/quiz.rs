use countries::normalize::Country;
use countries::quiz::{answer_matches, check_answer, quiz_step, run_quiz, QuizStep};

fn list(names: &[&str]) -> Vec<Country> {
    names.iter().map(|n| Country { name: n.to_string() }).collect()
}

fn lines(ls: &[&str]) -> Vec<String> {
    ls.iter().map(|l| l.to_string()).collect()
}

#[test]
fn quiz_all_correct_case_insensitive() {
    let r = run_quiz(&list(&["France", "Japan"]), &lines(&["france", "Japan"]));
    assert_eq!(r.correct, 2);
    assert_eq!(r.total, 2);
    assert!(r.missed.is_none());
}

#[test]
fn quiz_aborts_on_first_mismatch() {
    let r = run_quiz(&list(&["France", "Japan"]), &lines(&["france", "Germany"]));
    assert_eq!(r.correct, 1);
    assert_eq!(r.missed.as_deref(), Some("Japan"));
}

#[test]
fn quiz_stops_before_later_questions() {
    let r = run_quiz(&list(&["Chad", "Mali", "Peru"]), &lines(&["Niger", "Mali", "Peru"]));
    assert_eq!(r.correct, 0);
    assert_eq!(r.total, 3);
    assert_eq!(r.missed.as_deref(), Some("Chad"));
}

#[test]
fn quiz_with_no_entities() {
    let r = run_quiz(&Vec::new(), &lines(&["anything"]));
    assert_eq!(r.correct, 0);
    assert_eq!(r.total, 0);
    assert!(r.missed.is_none());
}

#[test]
fn exhausted_input_is_a_wrong_answer() {
    let r = run_quiz(&list(&["France", "Japan"]), &lines(&["France"]));
    assert_eq!(r.correct, 1);
    assert_eq!(r.missed.as_deref(), Some("Japan"));
}

#[test]
fn answers_are_trimmed_and_folded() {
    assert!(check_answer("  FRANCE \n", "France"));
    assert!(check_answer("united kingdom", "United Kingdom"));
    assert!(!check_answer("Germany", "Japan"));
    assert!(!check_answer("Fran ce", "France"));
}

#[test]
fn folded_texts_compare_exactly() {
    assert!(answer_matches("japan", "japan"));
    assert!(!answer_matches("japan", "Japan"));
}

#[test]
fn quiz_step_reports_running_count() {
    let countries = list(&["France", "Japan"]);
    match quiz_step(&countries, 1, "JAPAN\n") {
        QuizStep::Correct { correct, total } => {
            assert_eq!(correct, 2);
            assert_eq!(total, 2);
        }
        other => panic!("unexpected {other:?}"),
    }
    match quiz_step(&countries, 0, "Germany") {
        QuizStep::Wrong { answer } => assert_eq!(answer, "France"),
        other => panic!("unexpected {other:?}"),
    }
}
