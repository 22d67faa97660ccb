use todo_highlight::controllers::lsp::{InitError, Protected};
use todo_highlight::entities::state::State;
use todo_highlight::gateways::color_provider::ColorProvider;
use todo_highlight::gateways::ripgrep::RipGrepSearcher;
use todo_highlight::use_cases::highlight::Highlight;
use todo_highlight::use_cases::search::Search;

fn backend() -> Protected<RipGrepSearcher, ColorProvider> {
    let state = State::default();
    let grep = Search::new(RipGrepSearcher::try_from_regex("TODO").unwrap());
    let highlighter = Highlight::new(ColorProvider::default());
    Protected::new(state, grep, highlighter)
}

#[test]
fn init_without_workspace_folders_fails() {
    let mut b = backend();
    let outcome = b.init(None, &vec![]);
    assert!(matches!(outcome, Err(InitError::NoWorkspaceFolder)));
}

#[test]
fn init_with_unusable_keyword_fails_with_invalid_regex() {
    let mut b = backend();
    let highlights = Some(vec![("[".to_string(), None)]);
    let outcome = b.init(highlights, &vec!["/tmp".to_string()]);
    assert!(matches!(outcome, Err(InitError::InvalidRegex(_))));
}

#[test]
fn init_with_missing_root_still_succeeds() {
    let mut b = backend();
    let folders = vec!["/definitely/not/a/real/path".to_string()];
    assert!(b.init(None, &folders).is_ok());
}

#[test]
fn document_color_of_unknown_document_is_empty() {
    let b = backend();
    assert!(b.document_color("unknown.rs").is_empty());
}

#[test]
fn changed_document_gets_colored_ranges() {
    let mut b = backend();
    b.did_change("f.rs", "  TODO x TODO");
    let spans = b.document_color("f.rs");
    assert_eq!(spans.len(), 2);

    let (start, end, color) = spans[0];
    assert_eq!(start.row().row(), 0);
    assert_eq!(start.column().column(), 2);
    assert_eq!(end.column().column(), 9);
    // No palette was installed, so the default gray is used.
    assert_eq!(color.into_components(), (134, 134, 134, 255));

    let (start, end, _) = spans[1];
    assert_eq!(start.column().column(), 9);
    assert_eq!(end.row().row(), 0);
    assert_eq!(end.column().column(), 12);
}

#[test]
fn changed_document_without_matches_loses_its_entry() {
    let mut b = backend();
    b.did_change("f.rs", "TODO here");
    assert_eq!(b.document_color("f.rs").len(), 1);
    b.did_change("f.rs", "all done now");
    assert!(b.document_color("f.rs").is_empty());
}

#[test]
fn configured_palette_colors_the_ranges() {
    let mut b = backend();
    let highlights = Some(vec![("TODO".to_string(), Some("#ff0000".to_string()))]);
    // Initialization installs the palette and recompiles the pattern even
    // when the scanned root holds nothing.
    b.init(highlights, &vec!["/definitely/not/a/real/path".to_string()])
        .unwrap();
    b.did_change("f.rs", "TODO");
    let spans = b.document_color("f.rs");
    assert_eq!(spans.len(), 1);
    assert_eq!(spans[0].2.into_components(), (255, 0, 0, 255));
}

#[test]
fn shutdown_always_succeeds() {
    let b = backend();
    assert!(b.shutdown().is_ok());
}
