use tabpeek::args::{validate, RawArgs};
use tabpeek::config::{RowBudget, SourceKind, ViewMode};
use tabpeek::errors::{Flag, PreviewError};
use tabpeek::file_format::FileFormat;
use tabpeek::loader::check_source;

fn plain(filepath: &str) -> RawArgs {
    RawArgs {
        filepath: filepath.to_string(),
        max_rows: None,
        delimiter: None,
        select_columns: None,
        no_header: false,
        column_names_only: false,
        describe: false,
        head: false,
        tail: false,
        sample: false,
        markdown: false,
    }
}

#[test]
fn head_conflicts_with_tail() {
    let mut a = plain("data.csv");
    a.head = true;
    a.tail = true;
    assert_eq!(
        validate(a),
        Err(PreviewError::ConflictingFlags(Flag::Head, Flag::Tail))
    );
}

#[test]
fn head_conflicts_with_sample() {
    let mut a = plain("data.csv");
    a.head = true;
    a.sample = true;
    assert_eq!(
        validate(a),
        Err(PreviewError::ConflictingFlags(Flag::Head, Flag::Sample))
    );
}

#[test]
fn tail_conflicts_with_sample() {
    let mut a = plain("data.csv");
    a.tail = true;
    a.sample = true;
    assert_eq!(
        validate(a),
        Err(PreviewError::ConflictingFlags(Flag::Tail, Flag::Sample))
    );
}

#[test]
fn columns_only_conflicts_with_describe() {
    let mut a = plain("data.csv");
    a.column_names_only = true;
    a.describe = true;
    assert_eq!(
        validate(a),
        Err(PreviewError::ConflictingFlags(
            Flag::ColumnNamesOnly,
            Flag::Describe
        ))
    );
}

#[test]
fn columns_only_conflicts_with_max_rows() {
    let mut a = plain("data.csv");
    a.column_names_only = true;
    a.max_rows = Some(5);
    assert_eq!(
        validate(a),
        Err(PreviewError::ConflictingFlags(
            Flag::ColumnNamesOnly,
            Flag::MaxRows
        ))
    );
}

#[test]
fn columns_only_conflicts_with_select() {
    let mut a = plain("data.csv");
    a.column_names_only = true;
    a.select_columns = Some("x,y".to_string());
    assert_eq!(
        validate(a),
        Err(PreviewError::ConflictingFlags(
            Flag::ColumnNamesOnly,
            Flag::SelectColumns
        ))
    );
}

#[test]
fn columns_only_conflicts_with_no_header() {
    let mut a = plain("data.csv");
    a.column_names_only = true;
    a.no_header = true;
    assert_eq!(
        validate(a),
        Err(PreviewError::ConflictingFlags(
            Flag::ColumnNamesOnly,
            Flag::NoHeader
        ))
    );
}

#[test]
fn columns_only_conflicts_with_markdown() {
    let mut a = plain("data.csv");
    a.column_names_only = true;
    a.markdown = true;
    assert_eq!(
        validate(a),
        Err(PreviewError::ConflictingFlags(
            Flag::ColumnNamesOnly,
            Flag::Markdown
        ))
    );
}

#[test]
fn columns_only_conflicts_with_head() {
    let mut a = plain("data.csv");
    a.column_names_only = true;
    a.head = true;
    assert_eq!(
        validate(a),
        Err(PreviewError::ConflictingFlags(
            Flag::ColumnNamesOnly,
            Flag::Head
        ))
    );
}

#[test]
fn tsv_with_no_flags_resolves_to_tab_and_full_view() {
    let c = validate(plain("data.tsv")).unwrap();
    assert_eq!(c.format, FileFormat::DelimitedTab);
    assert_eq!(c.delimiter, '\t');
    assert_eq!(c.mode, ViewMode::Full);
    assert_eq!(c.budget, RowBudget::Unbounded);
    assert!(c.has_header);
    assert_eq!(c.source, SourceKind::FilePath("data.tsv".to_string()));
    assert!(c.projection.is_none());
}

#[test]
fn stdin_with_delimiter_override_ignores_extension_inference() {
    let mut a = plain("-");
    a.delimiter = Some(';');
    let c = validate(a).unwrap();
    assert_eq!(c.source, SourceKind::StandardInput);
    assert_eq!(c.format, FileFormat::Unknown);
    assert_eq!(c.delimiter, ';');
}

#[test]
fn stdin_without_override_defaults_to_comma() {
    let c = validate(plain("-")).unwrap();
    assert_eq!(c.source, SourceKind::StandardInput);
    assert_eq!(c.delimiter, ',');
}

#[test]
fn unknown_extension_on_a_path_is_rejected() {
    assert_eq!(
        validate(plain("data.txt")),
        Err(PreviewError::UnrecognizedFormat("data.txt".to_string()))
    );
}

#[test]
fn head_with_selection_resolves_projection_and_default_page() {
    let mut a = plain("data.csv");
    a.head = true;
    a.select_columns = Some("name,age".to_string());
    let c = validate(a).unwrap();
    assert_eq!(c.mode, ViewMode::Head);
    assert_eq!(c.budget, RowBudget::Bounded(10));
    assert_eq!(c.projection, Some(vec!["name".to_string(), "age".to_string()]));
}

#[test]
fn columns_only_forces_budget_of_one() {
    let mut a = plain("data.csv");
    a.column_names_only = true;
    let c = validate(a).unwrap();
    assert_eq!(c.mode, ViewMode::ColumnsOnly);
    assert_eq!(c.budget, RowBudget::Bounded(1));
}

#[test]
fn describe_outranks_head() {
    let mut a = plain("data.csv");
    a.describe = true;
    a.head = true;
    let c = validate(a).unwrap();
    assert_eq!(c.mode, ViewMode::Describe);
    assert_eq!(c.budget, RowBudget::Unbounded);
}

#[test]
fn parquet_path_keeps_projection_and_budget() {
    let mut a = plain("data.parquet");
    a.max_rows = Some(4);
    let c = validate(a).unwrap();
    assert_eq!(c.format, FileFormat::ColumnarBinary);
    assert_eq!(c.budget, RowBudget::Bounded(4));
}

#[test]
fn missing_file_is_reported_as_source_not_found() {
    let c = validate(plain("missing.parquet")).unwrap();
    let gate = check_source(&c.source, false);
    assert_eq!(
        gate,
        Err(PreviewError::SourceNotFound("missing.parquet".to_string()))
    );
}

#[test]
fn stdin_needs_no_file_probe() {
    let c = validate(plain("-")).unwrap();
    assert_eq!(check_source(&c.source, false), Ok(()));
}
