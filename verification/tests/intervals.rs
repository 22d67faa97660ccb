use todo_highlight::entities::coordinates::Column;
use todo_highlight::entities::file_matches::Match;
use todo_highlight::entities::metadata::RowMetadata;
use todo_highlight::gateways::color_provider::ColorProvider;
use todo_highlight::ports::colorer::{color_intervals_of, Colorer};

fn m(col: usize, text: &str) -> Match {
    Match::new(Column(col), text.to_string())
}

#[test]
fn single_match_spans_whole_row() {
    let matches = vec![m(3, "X")];
    let meta = RowMetadata::new(20, Column(0));
    let intervals = color_intervals_of(&matches, &meta);
    assert_eq!(intervals.len(), 1);
    assert_eq!((intervals[0].0.column(), intervals[0].1.column()), (0, 19));
}

#[test]
fn three_matches_make_contiguous_intervals() {
    let matches = vec![m(3, "TODO"), m(18, "TODO"), m(34, "TODO")];
    let meta = RowMetadata::new(80, Column(0));
    let intervals = color_intervals_of(&matches, &meta);
    assert_eq!(intervals.len(), 3);
    assert_eq!((intervals[0].0.column(), intervals[0].1.column()), (0, 18));
    assert_eq!((intervals[1].0.column(), intervals[1].1.column()), (18, 34));
    assert_eq!((intervals[2].0.column(), intervals[2].1.column()), (34, 79));
}

#[test]
fn one_interval_per_match_and_contiguous() {
    let matches = vec![m(2, "A"), m(5, "B"), m(9, "C"), m(11, "D")];
    let meta = RowMetadata::new(30, Column(1));
    let intervals = color_intervals_of(&matches, &meta);
    assert_eq!(intervals.len(), matches.len());
    for i in 0..intervals.len() - 1 {
        assert_eq!(intervals[i].1.column(), intervals[i + 1].0.column());
    }
    assert_eq!(intervals[intervals.len() - 1].1.column(), 29);
}

#[test]
fn first_interval_starts_at_first_non_whitespace() {
    let matches = vec![m(12, "TODO")];
    let meta = RowMetadata::new(40, Column(4));
    let intervals = color_intervals_of(&matches, &meta);
    assert_eq!(intervals[0].0.column(), 4);
}

#[test]
fn trait_interval_calculation_matches_free_function() {
    let matches = vec![m(7, "TODO"), m(15, "FIXME")];
    let meta = RowMetadata::new(25, Column(2));
    let provider = ColorProvider::default();
    let via_trait = provider.color_intervals(&matches, &meta);
    let direct = color_intervals_of(&matches, &meta);
    assert_eq!(via_trait.len(), direct.len());
    for i in 0..direct.len() {
        assert_eq!(via_trait[i].0.column(), direct[i].0.column());
        assert_eq!(via_trait[i].1.column(), direct[i].1.column());
    }
}
