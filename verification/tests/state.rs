use todo_highlight::entities::coordinates::{Column, Row};
use todo_highlight::entities::file_matches::{FileState, Match, RowEntry};
use todo_highlight::entities::metadata::RowMetadata;
use todo_highlight::entities::state::State;
use todo_highlight::entities::strmap::StrMap;

fn row(index: usize, cols: &[usize]) -> RowEntry {
    let matches: Vec<Match> = cols
        .iter()
        .map(|c| Match::new(Column(*c), "TODO".to_string()))
        .collect();
    RowEntry {
        row: Row(index),
        meta: RowMetadata::new(40, Column(0)),
        matches,
    }
}

fn file_state(rows: Vec<RowEntry>) -> FileState {
    FileState::try_new(rows).unwrap()
}

#[test]
fn try_new_of_empty_data_is_none() {
    assert!(FileState::try_new(vec![]).is_none());
    assert!(FileState::try_new(vec![row(0, &[1])]).is_some());
}

#[test]
fn file_state_replace_overwrites_or_inserts_in_order() {
    let mut fs = file_state(vec![row(1, &[3]), row(5, &[7])]);
    assert_eq!(fs.len(), 2);
    // Overwrite an existing row.
    fs.replace(Row(5), RowMetadata::new(10, Column(0)), vec![Match::new(Column(2), "X".to_string())]);
    assert_eq!(fs.len(), 2);
    assert_eq!(fs.rows()[1].meta.line_len(), 10);
    // Insert a new row between the others, keeping the order.
    fs.replace(Row(3), RowMetadata::new(12, Column(1)), vec![Match::new(Column(4), "Y".to_string())]);
    assert_eq!(fs.len(), 3);
    let rows: Vec<usize> = fs.rows().iter().map(|e| e.row.row()).collect();
    assert_eq!(rows, vec![1, 3, 5]);
}

#[test]
fn replace_then_remove_leaves_no_entry() {
    let mut state = State::default();
    state.replace("a.rs".to_string(), file_state(vec![row(0, &[1])]));
    assert!(state.get("a.rs").is_some());
    state.remove("a.rs");
    assert!(state.get("a.rs").is_none());
}

#[test]
fn remove_of_absent_entry_is_harmless() {
    let mut state = State::default();
    state.remove("missing.rs");
    assert!(state.get("missing.rs").is_none());
}

#[test]
fn extend_merges_and_later_entries_win() {
    let mut left = State::default();
    left.insert("a.rs".to_string(), file_state(vec![row(0, &[1])]));
    left.insert("b.rs".to_string(), file_state(vec![row(0, &[1])]));

    let mut right = State::default();
    right.insert("b.rs".to_string(), file_state(vec![row(0, &[1]), row(2, &[3])]));
    right.insert("c.rs".to_string(), file_state(vec![row(4, &[5])]));

    left.extend(right);
    assert_eq!(left.get("a.rs").unwrap().len(), 1);
    // The entry of the merged-in state won the collision.
    assert_eq!(left.get("b.rs").unwrap().len(), 2);
    assert_eq!(left.get("c.rs").unwrap().len(), 1);
}

#[test]
fn from_file_matches_holds_one_entry() {
    let state = State::from_file_matches("only.rs".to_string(), file_state(vec![row(0, &[1])]));
    assert!(state.get("only.rs").is_some());
    assert!(state.get("other.rs").is_none());
}

#[test]
fn strmap_insert_get_remove_and_keys() {
    let mut m: StrMap<u32> = StrMap::new();
    assert_eq!(m.len(), 0);
    m.insert("one".to_string(), 1);
    m.insert("two".to_string(), 2);
    m.insert("one".to_string(), 11);
    assert_eq!(m.len(), 2);
    assert_eq!(*m.get("one").unwrap(), 11);
    assert_eq!(*m.get("two").unwrap(), 2);
    assert!(m.get("three").is_none());
    let keys: Vec<String> = m.keys();
    assert_eq!(keys, vec!["one".to_string(), "two".to_string()]);
    m.remove("one");
    assert!(m.get("one").is_none());
    assert_eq!(m.len(), 1);
}

#[test]
fn coordinates_expose_their_values() {
    assert_eq!(Column(7).column(), 7);
    assert_eq!(Row(9).row(), 9);
    assert_eq!(Column::from(3usize).column(), 3);
    assert_eq!(Row::from(4usize).row(), 4);
    assert!(Column(1) < Column(2));
    assert!(Column(2) == Column(2));
}
