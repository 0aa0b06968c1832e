use publirs::poll::Poll;
use publirs::table::{Publishable, Record, Table};

fn table_poll(id: i64, published: bool) -> Poll {
    Poll::from_row(id, 1, format!("question {}", id), published)
}

fn table_ids(table: &Table<Poll>) -> Vec<i64> {
    table.rows().iter().map(|row| row.get_id()).collect()
}

#[test]
fn new_table_is_empty() {
    let table: Table<Poll> = Table::new();
    assert_eq!(table.len(), 0);
    assert!(table.rows().is_empty());
}

#[test]
fn first_id_of_an_empty_table_is_one() {
    let table: Table<Poll> = Table::new();
    assert_eq!(table.next_id(), Some(1));
}

#[test]
fn next_id_follows_the_last_id() {
    let table = Table::from_rows(vec![table_poll(3, false), table_poll(10, false)]).unwrap();
    assert_eq!(table.next_id(), Some(11));
}

#[test]
fn next_id_follows_a_negative_last_id() {
    let table = Table::from_rows(vec![table_poll(-5, false)]).unwrap();
    assert_eq!(table.next_id(), Some(-4));
}

#[test]
fn no_id_follows_the_largest_id() {
    let table = Table::from_rows(vec![table_poll(i64::MAX, false)]).unwrap();
    assert_eq!(table.next_id(), None);
}

#[test]
fn room_is_counted_up_to_the_largest_id() {
    let table = Table::from_rows(vec![table_poll(i64::MAX - 3, false)]).unwrap();
    assert!(table.has_room_for(0));
    assert!(table.has_room_for(3));
    assert!(!table.has_room_for(4));
    let full = Table::from_rows(vec![table_poll(i64::MAX, false)]).unwrap();
    assert!(full.has_room_for(0));
    assert!(!full.has_room_for(1));
    let empty: Table<Poll> = Table::new();
    assert!(empty.has_room_for(1000));
}

#[test]
fn from_rows_keeps_ascending_rows() {
    let table = Table::from_rows(vec![table_poll(1, false), table_poll(2, true), table_poll(7, false)]).unwrap();
    assert_eq!(table.len(), 3);
    assert_eq!(table_ids(&table), vec![1, 2, 7]);
    assert_eq!(table.row(1).get_id(), 2);
    assert!(table.row(1).get_published());
}

#[test]
fn from_rows_refuses_descending_rows() {
    assert!(Table::from_rows(vec![table_poll(2, false), table_poll(1, false)]).is_none());
}

#[test]
fn from_rows_refuses_a_repeated_id() {
    assert!(Table::from_rows(vec![table_poll(1, false), table_poll(4, false), table_poll(4, false)]).is_none());
}

#[test]
fn from_rows_accepts_no_rows_and_one_row() {
    assert_eq!(Table::<Poll>::from_rows(Vec::new()).unwrap().len(), 0);
    assert_eq!(Table::from_rows(vec![table_poll(9, false)]).unwrap().len(), 1);
}

#[test]
fn position_finds_every_row_and_nothing_else() {
    let rows: Vec<Poll> = vec![1, 3, 4, 8, 20, 21, 50].into_iter().map(|id| table_poll(id, false)).collect();
    let table = Table::from_rows(rows).unwrap();
    assert_eq!(table.position(1), Some(0));
    assert_eq!(table.position(3), Some(1));
    assert_eq!(table.position(4), Some(2));
    assert_eq!(table.position(8), Some(3));
    assert_eq!(table.position(20), Some(4));
    assert_eq!(table.position(21), Some(5));
    assert_eq!(table.position(50), Some(6));
    assert_eq!(table.position(0), None);
    assert_eq!(table.position(2), None);
    assert_eq!(table.position(9), None);
    assert_eq!(table.position(51), None);
    assert_eq!(table.position(i64::MIN), None);
    assert_eq!(table.position(i64::MAX), None);
}

#[test]
fn position_in_an_empty_table_is_none() {
    let table: Table<Poll> = Table::new();
    assert_eq!(table.position(1), None);
}

#[test]
fn get_copies_the_row() {
    let table = Table::from_rows(vec![table_poll(1, false), table_poll(2, true)]).unwrap();
    let row = table.get(2).unwrap();
    assert_eq!(row.get_id(), 2);
    assert_eq!(row.get_question(), "question 2");
    assert!(row.get_published());
    assert!(table.get(3).is_none());
    assert_eq!(table.len(), 2);
}

#[test]
fn replace_puts_the_row_in_its_place() {
    let mut table = Table::from_rows(vec![table_poll(1, false), table_poll(2, false), table_poll(3, false)]).unwrap();
    let replaced = table.replace(Poll::from_row(2, 9, String::from("changed"), true));
    assert!(replaced);
    assert_eq!(table_ids(&table), vec![1, 2, 3]);
    let row = table.get(2).unwrap();
    assert_eq!(row.get_category_id(), 9);
    assert_eq!(row.get_question(), "changed");
    assert!(row.get_published());
    assert_eq!(table.get(1).unwrap().get_question(), "question 1");
    assert_eq!(table.get(3).unwrap().get_question(), "question 3");
}

#[test]
fn replace_of_an_unknown_id_changes_nothing() {
    let mut table = Table::from_rows(vec![table_poll(1, false)]).unwrap();
    assert!(!table.replace(table_poll(2, true)));
    assert_eq!(table_ids(&table), vec![1]);
    assert!(!table.get(1).unwrap().get_published());
}

#[test]
fn remove_takes_the_row_out() {
    let mut table = Table::from_rows(vec![table_poll(1, false), table_poll(2, false), table_poll(3, false)]).unwrap();
    let row = table.remove(2).unwrap();
    assert_eq!(row.get_id(), 2);
    assert_eq!(table_ids(&table), vec![1, 3]);
    assert!(table.remove(2).is_none());
    assert_eq!(table_ids(&table), vec![1, 3]);
}

#[test]
fn oldest_pending_skips_published_rows() {
    let table =
        Table::from_rows(vec![table_poll(1, true), table_poll(2, true), table_poll(5, false), table_poll(6, false)]).unwrap();
    assert_eq!(table.oldest_pending().unwrap().get_id(), 5);
}

#[test]
fn oldest_pending_of_published_rows_is_none() {
    let table = Table::from_rows(vec![table_poll(1, true), table_poll(2, true)]).unwrap();
    assert!(table.oldest_pending().is_none());
    let empty: Table<Poll> = Table::new();
    assert!(empty.oldest_pending().is_none());
}

#[test]
fn mark_published_publishes_one_row() {
    let mut table = Table::from_rows(vec![table_poll(1, false), table_poll(2, false)]).unwrap();
    let row = table.mark_published(1).unwrap();
    assert_eq!(row.get_id(), 1);
    assert!(row.get_published());
    assert_eq!(row.get_question(), "question 1");
    assert!(table.get(1).unwrap().get_published());
    assert!(!table.get(2).unwrap().get_published());
    assert_eq!(table.oldest_pending().unwrap().get_id(), 2);
}

#[test]
fn mark_published_of_an_unknown_id_changes_nothing() {
    let mut table = Table::from_rows(vec![table_poll(1, false)]).unwrap();
    assert!(table.mark_published(7).is_none());
    assert!(!table.get(1).unwrap().get_published());
}

#[test]
fn a_row_knows_its_id_and_its_flag() {
    let mut row = table_poll(12, false);
    assert_eq!(row.id(), 12);
    assert!(!row.is_published());
    row.publish();
    assert!(row.is_published());
    assert_eq!(row.id(), 12);
    assert_eq!(row.clone().get_question(), "question 12");
}
