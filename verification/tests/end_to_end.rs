use polars::prelude::{AnyValue, CsvParseOptions, CsvReadOptions, ParquetWriter, SerReader};
use tabpeek::args::{validate, RawArgs};
use tabpeek::dispatch::{dispatch, RenderOutput};
use tabpeek::errors::PreviewError;
use tabpeek::loader::load_table;

fn plain(filepath: &str) -> RawArgs {
    RawArgs {
        filepath: filepath.to_string(),
        max_rows: None,
        delimiter: None,
        select_columns: None,
        no_header: false,
        column_names_only: false,
        describe: false,
        head: false,
        tail: false,
        sample: false,
        markdown: false,
    }
}

fn names_of(table: &polars::prelude::DataFrame) -> Vec<String> {
    table
        .get_column_names_owned()
        .into_iter()
        .map(|s| s.to_string())
        .collect()
}

#[test]
fn tsv_with_no_flags_prints_all_rows() {
    let c = validate(plain("data.tsv")).unwrap();
    let bytes = b"a\tb\n1\t2\n3\t4\n5\t6\n".to_vec();
    let table = load_table(&c, bytes).unwrap();
    match dispatch(&c, table) {
        RenderOutput::TableView(t) => {
            assert_eq!(t.height(), 3);
            assert_eq!(names_of(&t), vec!["a", "b"]);
        }
        _ => panic!("expected a table view"),
    }
}

#[test]
fn head_with_selection_keeps_two_columns_and_ten_rows() {
    let mut a = plain("data.csv");
    a.head = true;
    a.select_columns = Some("name,age".to_string());
    let c = validate(a).unwrap();
    let mut csv = String::from("name,age,city\n");
    for i in 0..12 {
        csv.push_str(&format!("p{},{},c{}\n", i, 20 + i, i));
    }
    let table = load_table(&c, csv.into_bytes()).unwrap();
    match dispatch(&c, table) {
        RenderOutput::TableView(t) => {
            assert_eq!(t.height(), 10);
            assert_eq!(names_of(&t), vec!["name", "age"]);
        }
        _ => panic!("expected a table view"),
    }
}

#[test]
fn stdin_with_semicolon_delimiter_parses_by_it() {
    let mut a = plain("-");
    a.delimiter = Some(';');
    let c = validate(a).unwrap();
    let table = load_table(&c, b"x;y\n1;2\n".to_vec()).unwrap();
    assert_eq!(names_of(&table), vec!["x", "y"]);
    assert_eq!(table.height(), 1);
}

#[test]
fn columns_only_view_twice_yields_identical_output() {
    let mut a1 = plain("data.csv");
    a1.column_names_only = true;
    let c1 = validate(a1).unwrap();
    let mut a2 = plain("data.csv");
    a2.column_names_only = true;
    let c2 = validate(a2).unwrap();
    let bytes = b"b,a,c\n1,2,3\n4,5,6\n".to_vec();
    let first = match dispatch(&c1, load_table(&c1, bytes.clone()).unwrap()) {
        RenderOutput::ColumnListing(names) => names,
        _ => panic!("expected a column listing"),
    };
    let second = match dispatch(&c2, load_table(&c2, bytes).unwrap()) {
        RenderOutput::ColumnListing(names) => names,
        _ => panic!("expected a column listing"),
    };
    assert_eq!(first, vec!["b", "a", "c"]);
    assert_eq!(first, second);
}

#[test]
fn tail_keeps_the_last_rows() {
    let mut a = plain("data.csv");
    a.tail = true;
    a.max_rows = Some(2);
    let c = validate(a).unwrap();
    let table = load_table(&c, b"a,b\n1,10\n2,20\n3,30\n4,40\n5,50\n".to_vec()).unwrap();
    match dispatch(&c, table) {
        RenderOutput::TableView(t) => {
            assert_eq!(t.height(), 2);
            assert_eq!(t.column("a").unwrap().get(0).unwrap(), AnyValue::Int64(4));
            assert_eq!(t.column("a").unwrap().get(1).unwrap(), AnyValue::Int64(5));
        }
        _ => panic!("expected a table view"),
    }
}

#[test]
fn tail_without_count_keeps_everything() {
    let mut a = plain("data.csv");
    a.tail = true;
    let c = validate(a).unwrap();
    let table = load_table(&c, b"a\n1\n2\n3\n".to_vec()).unwrap();
    match dispatch(&c, table) {
        RenderOutput::TableView(t) => assert_eq!(t.height(), 3),
        _ => panic!("expected a table view"),
    }
}

#[test]
fn sample_draws_the_requested_rows() {
    let mut a = plain("data.csv");
    a.sample = true;
    a.max_rows = Some(3);
    let c = validate(a).unwrap();
    let table = load_table(&c, b"a\n1\n2\n3\n4\n5\n".to_vec()).unwrap();
    match dispatch(&c, table) {
        RenderOutput::TableView(t) => assert_eq!(t.height(), 3),
        _ => panic!("expected a table view"),
    }
}

#[test]
fn sample_count_is_capped_by_the_table_height() {
    let mut a = plain("data.csv");
    a.sample = true;
    a.max_rows = Some(10);
    let c = validate(a).unwrap();
    let table = load_table(&c, b"a\n1\n2\n3\n".to_vec()).unwrap();
    match dispatch(&c, table) {
        RenderOutput::TableView(t) => assert_eq!(t.height(), 3),
        _ => panic!("expected a table view"),
    }
}

#[test]
fn describe_reduces_every_column_to_its_statistics() {
    let mut a = plain("data.csv");
    a.describe = true;
    let c = validate(a).unwrap();
    let table = load_table(&c, b"a,b\n1,10\n2,20\n3,30\n".to_vec()).unwrap();
    match dispatch(&c, table) {
        RenderOutput::SummaryView(s) => {
            assert_eq!(s.columns, vec!["a", "b"]);
            assert_eq!(s.count, vec![3, 3]);
            assert_eq!(s.mean.len(), 2);
            assert!(s.mean[0].is_some());
            assert_eq!(s.median.len(), 2);
            assert_eq!(s.std_dev.len(), 2);
            assert_eq!(
                s.minimum,
                vec![Some("1".to_string()), Some("10".to_string())]
            );
            assert_eq!(
                s.maximum,
                vec![Some("3".to_string()), Some("30".to_string())]
            );
        }
        _ => panic!("expected a summary view"),
    }
}

#[test]
fn parquet_bytes_round_trip_through_the_loader() {
    let source = CsvReadOptions::default()
        .with_parse_options(CsvParseOptions::default().with_separator(b','))
        .into_reader_with_file_handle(std::io::Cursor::new(b"a,b\n1,10\n2,20\n3,30\n".to_vec()))
        .finish()
        .unwrap();
    let mut df = source;
    let mut buf: Vec<u8> = Vec::new();
    ParquetWriter::new(&mut buf).finish(&mut df).unwrap();

    let mut a = plain("data.parquet");
    a.max_rows = Some(2);
    let c = validate(a).unwrap();
    let table = load_table(&c, buf).unwrap();
    assert_eq!(names_of(&table), vec!["a", "b"]);
    assert_eq!(table.height(), 2);
}

#[test]
fn garbage_parquet_bytes_are_unparseable() {
    let c = validate(plain("data.parquet")).unwrap();
    assert_eq!(
        load_table(&c, b"this is not columnar binary".to_vec()).unwrap_err(),
        PreviewError::UnparseableSource("data.parquet".to_string())
    );
}

#[test]
fn ragged_delimited_bytes_are_unparseable() {
    let c = validate(plain("data.csv")).unwrap();
    assert_eq!(
        load_table(&c, b"a,b\n1,2,3\n".to_vec()).unwrap_err(),
        PreviewError::UnparseableSource("data.csv".to_string())
    );
}

#[test]
fn describe_counts_only_non_null_values() {
    let mut a = plain("data.csv");
    a.describe = true;
    let c = validate(a).unwrap();
    let table = load_table(&c, b"a,b\n1,\n2,20\n".to_vec()).unwrap();
    match dispatch(&c, table) {
        RenderOutput::SummaryView(s) => {
            assert_eq!(s.columns, vec!["a", "b"]);
            assert_eq!(s.count, vec![2, 1]);
            assert_eq!(s.std_dev.len(), 2);
        }
        _ => panic!("expected a summary view"),
    }
}

#[test]
fn describe_leaves_text_column_statistics_empty_without_failing() {
    let mut a = plain("data.csv");
    a.describe = true;
    let c = validate(a).unwrap();
    let table = load_table(&c, b"name,age\nab,1\ncd,2\n".to_vec()).unwrap();
    match dispatch(&c, table) {
        RenderOutput::SummaryView(s) => {
            assert_eq!(s.columns, vec!["name", "age"]);
            assert_eq!(s.count, vec![2, 2]);
            assert_eq!(s.mean[0], None);
            assert_eq!(s.median[0], None);
            assert_eq!(s.std_dev[0], None);
            assert_eq!(s.minimum[0], Some("\"ab\"".to_string()));
            assert_eq!(s.maximum[0], Some("\"cd\"".to_string()));
            assert!(s.mean[1].is_some());
            assert_eq!(s.minimum[1], Some("1".to_string()));
        }
        _ => panic!("expected a summary view"),
    }
}

#[test]
fn no_header_treats_the_first_row_as_data() {
    let mut a = plain("data.csv");
    a.no_header = true;
    let c = validate(a).unwrap();
    assert!(!c.has_header);
    let table = load_table(&c, b"1,2\n3,4\n".to_vec()).unwrap();
    assert_eq!(table.height(), 2);
    assert_eq!(names_of(&table).len(), 2);
}
