use todo_highlight::entities::error::Error;
use todo_highlight::gateways::ripgrep::{partition_entries, DirEntryInfo, RipGrepSearcher};
use todo_highlight::ports::regex_manager::{join_with_pipe, RegexManager};
use todo_highlight::ports::searcher::{should_skip_name, Searcher};

fn searcher(pattern: &str) -> RipGrepSearcher {
    RipGrepSearcher::try_from_regex(pattern).unwrap()
}

#[test]
fn scan_text_without_occurrences_yields_no_entry() {
    let s = searcher("TODO");
    assert!(s.search_in_text("nothing to see here\nor here\n").is_none());
    assert!(s.search_in_text("").is_none());
}

#[test]
fn scan_text_records_rows_and_columns() {
    let s = searcher("TODO");
    let file_state = s.search_in_text("x TODO y").unwrap();
    assert_eq!(file_state.len(), 1);
    let rows = file_state.rows();
    assert_eq!(rows[0].row.row(), 0);
    assert_eq!(rows[0].matches.len(), 1);
    assert_eq!(rows[0].matches[0].column().column(), 2);
    assert_eq!(rows[0].matches[0].keyword().as_str(), "TODO");
    assert_eq!(rows[0].meta.line_len(), 8);
}

#[test]
fn scan_text_reports_physical_line_minus_one() {
    let s = searcher("TODO");
    let file_state = s.search_in_text("TODO\nnothing\nTODO twice TODO\n").unwrap();
    assert_eq!(file_state.len(), 2);
    let rows = file_state.rows();
    assert_eq!(rows[0].row.row(), 0);
    // A reported line includes its terminator: "TODO\n" has five bytes.
    assert_eq!(rows[0].meta.line_len(), 5);
    assert_eq!(rows[1].row.row(), 2);
    assert_eq!(rows[1].matches.len(), 2);
    assert_eq!(rows[1].matches[0].column().column(), 0);
    assert_eq!(rows[1].matches[1].column().column(), 11);
}

#[test]
fn scan_text_records_first_non_whitespace_column() {
    let s = searcher("TODO");
    let file_state = s.search_in_text("  TODO indented").unwrap();
    let rows = file_state.rows();
    assert_eq!(rows[0].meta.first_non_zero_pos().column(), 2);
}

#[test]
fn all_whitespace_row_reports_its_full_byte_length() {
    // A keyword of one space matches inside an all-whitespace row; the
    // no-break spaces around it take two bytes each, so the first
    // non-whitespace column falls back to the row's byte length, not its
    // character count.
    let s = searcher(" ");
    let file_state = s.search_in_text("\u{a0} \u{a0}").unwrap();
    let rows = file_state.rows();
    assert_eq!(rows[0].meta.line_len(), 5);
    assert_eq!(rows[0].meta.first_non_zero_pos().column(), 5);
    assert_eq!(rows[0].matches[0].column().column(), 2);
}

#[test]
fn matched_text_is_the_literal_substring() {
    let s = searcher("TODO|FIXME");
    let file_state = s.search_in_text("a FIXME b TODO").unwrap();
    let rows = file_state.rows();
    assert_eq!(rows[0].matches.len(), 2);
    assert_eq!(rows[0].matches[0].keyword().as_str(), "FIXME");
    assert_eq!(rows[0].matches[1].keyword().as_str(), "TODO");
}

#[test]
fn update_regex_with_empty_list_fails_and_keeps_pattern() {
    let mut s = searcher("TODO");
    let outcome = s.update_regex(&vec![]);
    assert!(matches!(outcome, Err(Error::InvalidRegex(_))));
    // The previous pattern still drives the scan.
    assert!(s.search_in_text("a TODO b").is_some());
    assert!(s.search_in_text("a FIXME b").is_none());
}

#[test]
fn update_regex_with_bad_pattern_fails_and_keeps_pattern() {
    let mut s = searcher("TODO");
    let outcome = s.update_regex(&vec!["[".to_string()]);
    assert!(matches!(outcome, Err(Error::InvalidRegex(_))));
    assert!(s.search_in_text("a TODO b").is_some());
}

#[test]
fn update_regex_installs_the_alternation() {
    let mut s = searcher("TODO");
    s.update_regex(&vec!["NOTE".to_string(), "BUG".to_string()]).unwrap();
    assert!(s.search_in_text("a TODO b").is_none());
    assert!(s.search_in_text("a NOTE b").is_some());
    assert!(s.search_in_text("a BUG b").is_some());
}

#[test]
fn try_from_regex_rejects_bad_patterns() {
    assert!(RipGrepSearcher::try_from_regex("TODO").is_ok());
    assert!(matches!(
        RipGrepSearcher::try_from_regex("["),
        Err(Error::InvalidRegex(_))
    ));
}

#[test]
fn join_with_pipe_builds_the_alternation() {
    assert_eq!(join_with_pipe(&vec![]).as_str(), "");
    assert_eq!(join_with_pipe(&vec!["TODO".to_string()]).as_str(), "TODO");
    assert_eq!(
        join_with_pipe(&vec!["TODO".to_string(), "FIXME".to_string(), "BUG".to_string()]).as_str(),
        "TODO|FIXME|BUG"
    );
}

#[test]
fn skip_policy_names_exactly_the_deny_set() {
    assert!(should_skip_name("."));
    assert!(should_skip_name(".."));
    assert!(should_skip_name("node_modules"));
    assert!(should_skip_name("target"));
    assert!(should_skip_name(".git"));
    assert!(!should_skip_name("src"));
    assert!(!should_skip_name("node_modules2"));
    assert!(!should_skip_name(".github"));
    assert!(!should_skip_name("Target"));
}

#[test]
fn searcher_trait_exposes_the_skip_policy() {
    let s = searcher("TODO");
    assert!(s.should_skip(".git"));
    assert!(!s.should_skip("docs"));
}

fn entry(path: &str, name: &str, is_dir: bool, is_file: bool) -> DirEntryInfo {
    DirEntryInfo {
        path: path.to_string(),
        name: name.to_string(),
        is_dir,
        is_file,
    }
}

#[test]
fn walk_never_descends_into_denied_directories_but_keeps_siblings() {
    let entries = vec![
        entry("/w/src", "src", true, false),
        entry("/w/node_modules", "node_modules", true, false),
        entry("/w/.git", ".git", true, false),
        entry("/w/target", "target", true, false),
        entry("/w/a.txt", "a.txt", false, true),
        entry("/w/vendor", "vendor", true, false),
    ];
    let (dirs, files) = partition_entries(&entries);
    let dir_names: Vec<&str> = dirs.iter().map(|d| d.as_str()).collect();
    assert_eq!(dir_names, vec!["/w/src", "/w/vendor"]);
    let file_names: Vec<&str> = files.iter().map(|f| f.as_str()).collect();
    assert_eq!(file_names, vec!["/w/a.txt"]);
}

#[test]
fn recursive_search_of_missing_root_finds_nothing() {
    let s = searcher("TODO");
    let state = s.recurssive_search("/definitely/not/a/real/path");
    assert!(state.get("/definitely/not/a/real/path/x").is_none());
}
