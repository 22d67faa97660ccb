use todo_highlight::config::UserColors;
use todo_highlight::controllers::highlight::Highlight;
use todo_highlight::entities::color::{Color, ColorType};
use todo_highlight::entities::coordinates::{Column, Row};
use todo_highlight::entities::position::Position;
use todo_highlight::extension::{
    asset_name, bin_name, version_binary_path, Architecture, Os, TodoHighlightExtension,
};
use todo_highlight::gateways::color_provider::ColorProvider;
use todo_highlight::ports::conversion::Conversion;
use todo_highlight::presenters::PositionPresenter;

#[test]
fn test_language_server_command() {
    let _ = TodoHighlightExtension::new();
}

#[test]
fn bin_name_depends_on_the_platform() {
    assert_eq!(bin_name((Os::Linux, Architecture::X8664)), "todo-highlight-lsp");
    assert_eq!(bin_name((Os::Mac, Architecture::Aarch64)), "todo-highlight-lsp");
    assert_eq!(bin_name((Os::Windows, Architecture::X86)), "todo-highlight-lsp.ext");
}

#[test]
fn asset_name_spells_platform_and_archive() {
    assert_eq!(
        asset_name(Os::Linux, Architecture::X8664).as_str(),
        "todo-highlight-lsp-linux-amd64.tar.gz"
    );
    assert_eq!(
        asset_name(Os::Mac, Architecture::Aarch64).as_str(),
        "todo-highlight-lsp-darwin-arm64.tar.gz"
    );
    assert_eq!(
        asset_name(Os::Windows, Architecture::X86).as_str(),
        "todo-highlight-lsp-windows-amd64.zip"
    );
}

#[test]
fn version_binary_path_joins_dir_and_binary() {
    assert_eq!(
        version_binary_path("1.2.3", (Os::Linux, Architecture::X8664)).as_str(),
        "todo-highlight-lsp-1.2.3/todo-highlight-lsp"
    );
    assert_eq!(
        version_binary_path("1.2.3", (Os::Windows, Architecture::X86)).as_str(),
        "todo-highlight-lsp-1.2.3/todo-highlight-lsp.ext"
    );
}

#[test]
fn position_presenter_projects_row_and_column() {
    let p = Position::new(Row(5), Column(7));
    assert_eq!(PositionPresenter::convert(p), (5, 7));
}

#[test]
fn position_splits_into_its_pair() {
    let p = Position::new(Row(2), Column(3));
    let (row, column) = p.into_pair();
    assert_eq!(row.row(), 2);
    assert_eq!(column.column(), 3);
}

#[test]
fn bulk_palette_update_installs_every_entry() {
    let mut h = Highlight::new(ColorProvider::default());
    h.update_palette(vec![
        (
            "TODO".to_string(),
            UserColors { background: Color::new(1, 2, 3, 4) },
        ),
        (
            "FIXME".to_string(),
            UserColors { background: Color::new(5, 6, 7, 8) },
        ),
    ]);
    assert_eq!(h.colors().len(), 2);
    let c = h.highlight("TODO", ColorType::Background).unwrap();
    assert_eq!(c.into_components(), (1, 2, 3, 4));
    let c = h.highlight("FIXME", ColorType::Background).unwrap();
    assert_eq!(c.into_components(), (5, 6, 7, 8));
    assert!(h.highlight("NOTE", ColorType::Background).is_none());
}
