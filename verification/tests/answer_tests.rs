use publirs::answer::{
    correct_option, get_default_isok, option_texts, Answer, NewAnswer, NewBasicAnswer,
};
use publirs::error::CustomError;
use publirs::store::Store;

fn stored_answers(rows: &[(i64, i64, &str, bool)]) -> Store {
    let answers = rows
        .iter()
        .map(|(id, poll_id, text, isok)| Answer::from_row(*id, *poll_id, String::from(*text), *isok))
        .collect();
    Store::from_tables(Vec::new(), Vec::new(), answers, Vec::new()).unwrap()
}

fn answer_list(flags: &[bool]) -> Vec<Answer> {
    flags
        .iter()
        .enumerate()
        .map(|(i, isok)| Answer::from_row(i as i64 + 1, 1, format!("option {}", i), *isok))
        .collect()
}

#[test]
fn answer_from_row_keeps_the_columns() {
    let answer = Answer::from_row(3, 8, String::from("Team X"), true);
    assert_eq!(answer.get_id(), 3);
    assert_eq!(answer.get_poll_id(), 8);
    assert_eq!(answer.get_text(), "Team X");
    assert!(answer.get_isok());
}

#[test]
fn answer_clone_keeps_the_columns() {
    let answer = Answer::from_row(3, 8, String::from("Team X"), true).clone();
    assert_eq!(answer.get_id(), 3);
    assert_eq!(answer.get_poll_id(), 8);
    assert_eq!(answer.get_text(), "Team X");
    assert!(answer.get_isok());
}

#[test]
fn basic_answer_clone_keeps_the_fields() {
    let answer = NewBasicAnswer { text: String::from("Team X"), isok: true }.clone();
    assert_eq!(answer.text, "Team X");
    assert!(answer.isok);
}

#[test]
fn created_answers_get_consecutive_ids() {
    let mut store = Store::new();
    let first = Answer::create(&mut store, NewAnswer::new(7, String::from("Team X"), false)).unwrap();
    let second = Answer::create(&mut store, NewAnswer::new(7, String::from("Team Y"), true)).unwrap();
    assert_eq!(first.get_id(), 1);
    assert_eq!(first.get_poll_id(), 7);
    assert_eq!(first.get_text(), "Team X");
    assert!(!first.get_isok());
    assert_eq!(second.get_id(), 2);
    assert!(second.get_isok());
}

#[test]
fn answer_create_fails_when_ids_are_used_up() {
    let mut store = stored_answers(&[(i64::MAX, 1, "last", false)]);
    let created = Answer::create(&mut store, NewAnswer::new(7, String::from("more"), false));
    assert!(matches!(created, Err(CustomError::ServerError(_))));
    assert_eq!(store.answers.len(), 1);
}

#[test]
fn answer_read_finds_the_row_or_nothing() {
    let store = stored_answers(&[(1, 1, "a", false), (2, 1, "b", true)]);
    assert_eq!(Answer::read(&store, 2).unwrap().get_text(), "b");
    assert!(matches!(Answer::read(&store, 3), Err(CustomError::NotFound)));
}

#[test]
fn answer_read_all_lists_every_row() {
    let store = stored_answers(&[(1, 1, "a", false), (2, 2, "b", true), (3, 1, "c", false)]);
    let texts: Vec<String> =
        Answer::read_all(&store).iter().map(|answer| String::from(answer.get_text())).collect();
    assert_eq!(texts, vec!["a", "b", "c"]);
}

#[test]
fn read_for_poll_keeps_the_polls_answers_in_id_order() {
    let store = stored_answers(&[
        (1, 1, "a", false),
        (2, 2, "b", true),
        (3, 1, "c", true),
        (4, 3, "d", false),
        (5, 1, "e", false),
    ]);
    let answers = Answer::read_for_poll(&store, 1);
    let ids: Vec<i64> = answers.iter().map(|answer| answer.get_id()).collect();
    assert_eq!(ids, vec![1, 3, 5]);
    assert_eq!(answers[1].get_text(), "c");
    assert!(answers[1].get_isok());
    let other: Vec<i64> = Answer::read_for_poll(&store, 3).iter().map(|answer| answer.get_id()).collect();
    assert_eq!(other, vec![4]);
}

#[test]
fn read_for_poll_without_answers_is_empty() {
    let store = stored_answers(&[(1, 1, "a", false)]);
    assert!(Answer::read_for_poll(&store, 2).is_empty());
    assert!(Answer::read_for_poll(&Store::new(), 1).is_empty());
}

#[test]
fn correct_option_is_the_first_correct_answer() {
    assert_eq!(correct_option(&answer_list(&[false, true, false])), Some(1));
    assert_eq!(correct_option(&answer_list(&[true, false])), Some(0));
    assert_eq!(correct_option(&answer_list(&[false, false, true])), Some(2));
    assert_eq!(correct_option(&answer_list(&[false, true, true])), Some(1));
}

#[test]
fn correct_option_without_a_correct_answer_is_none() {
    assert_eq!(correct_option(&answer_list(&[false, false])), None);
    assert_eq!(correct_option(&answer_list(&[])), None);
}

#[test]
fn option_texts_lists_the_texts_in_order() {
    assert_eq!(option_texts(&answer_list(&[false, true, false])), vec!["option 0", "option 1", "option 2"]);
    assert!(option_texts(&answer_list(&[])).is_empty());
}

#[test]
fn correct_answer_for_poll_counts_within_the_poll() {
    let store = stored_answers(&[
        (1, 2, "x", true),
        (2, 1, "a", false),
        (3, 2, "y", false),
        (4, 1, "b", false),
        (5, 1, "c", true),
    ]);
    assert_eq!(Answer::get_correct_answer_for_poll(&store, 1), Some(2));
    assert_eq!(Answer::get_correct_answer_for_poll(&store, 2), Some(0));
    assert_eq!(Answer::get_correct_answer_for_poll(&store, 3), None);
}

#[test]
fn answer_update_replaces_the_whole_row() {
    let mut store = stored_answers(&[(1, 1, "a", false), (2, 1, "b", true)]);
    let updated = Answer::update(&mut store, Answer::from_row(1, 4, String::from("z"), true)).unwrap();
    assert_eq!(updated.get_text(), "z");
    let stored = Answer::read(&store, 1).unwrap();
    assert_eq!(stored.get_poll_id(), 4);
    assert_eq!(stored.get_text(), "z");
    assert!(stored.get_isok());
    assert_eq!(Answer::read(&store, 2).unwrap().get_text(), "b");
}

#[test]
fn answer_update_of_an_unknown_id_is_not_found() {
    let mut store = stored_answers(&[(1, 1, "a", false)]);
    let updated = Answer::update(&mut store, Answer::from_row(3, 4, String::from("z"), true));
    assert!(matches!(updated, Err(CustomError::NotFound)));
    assert_eq!(Answer::read(&store, 1).unwrap().get_text(), "a");
}

#[test]
fn answer_delete_removes_the_row_and_returns_it() {
    let mut store = stored_answers(&[(1, 1, "a", false), (2, 1, "b", true)]);
    assert_eq!(Answer::delete(&mut store, 2).unwrap().get_text(), "b");
    assert!(matches!(Answer::delete(&mut store, 2), Err(CustomError::NotFound)));
    assert_eq!(store.answers.len(), 1);
}

#[test]
fn answers_are_not_correct_by_default() {
    assert!(!get_default_isok());
}
