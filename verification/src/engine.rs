//! The boundary to the polars tabular-data engine. Everything here is
//! trusted: the wrappers' contracts state what the engine's source and
//! documentation show, and nothing more is assumed of it anywhere else.
use vstd::prelude::*;
use polars::prelude::{
    CsvParseOptions, CsvReadOptions, DataFrame, ParquetReader, PlSmallStr, PolarsError, SerReader,
    SeriesTrait,
};

verus! {

#[verifier::external_type_specification]
#[verifier::external_body]
pub struct ExDataFrame(DataFrame);

#[verifier::external_type_specification]
#[verifier::external_body]
pub struct ExPolarsError(PolarsError);

#[verifier::external_type_specification]
#[verifier::external_body]
pub struct ExColumn(polars::prelude::Column);

/// The ordered column names a loaded table holds.
pub uninterp spec fn table_columns(t: DataFrame) -> Seq<Seq<char>>;

/// The number of rows a loaded table holds.
pub uninterp spec fn table_height(t: DataFrame) -> nat;

/// The column listing that a successful parse of these bytes as delimited
/// text yields: the engine's CSV reader is a function of its inputs alone.
pub uninterp spec fn delimited_columns(
    bytes: Seq<u8>,
    separator: u8,
    has_header: bool,
    projection: Option<Seq<Seq<char>>>,
    limit: Option<int>,
) -> Seq<Seq<char>>;

/// The column listing that a successful parse of these bytes as columnar
/// binary yields: the engine's Parquet reader is a function of its inputs
/// alone.
pub uninterp spec fn columnar_columns(
    bytes: Seq<u8>,
    projection: Option<Seq<Seq<char>>>,
    limit: Option<int>,
) -> Seq<Seq<char>>;

/// The number of data rows a successful parse of these bytes as delimited
/// text holds before any row limit is applied.
pub uninterp spec fn delimited_height(
    bytes: Seq<u8>,
    separator: u8,
    has_header: bool,
    projection: Option<Seq<Seq<char>>>,
) -> nat;

/// Whether these bytes parse as columnar binary under these options.
pub uninterp spec fn columnar_parses(
    bytes: Seq<u8>,
    projection: Option<Seq<Seq<char>>>,
    limit: Option<int>,
) -> bool;

/// The number of rows a successful parse of these bytes as columnar binary
/// holds before any row limit is applied.
pub uninterp spec fn columnar_height(bytes: Seq<u8>, projection: Option<Seq<Seq<char>>>) -> nat;

/// The number of null values in the table's `i`th column.
pub uninterp spec fn column_nulls(t: DataFrame, i: int) -> nat;

/// The mean of the table's `i`th column as the engine renders it, or nothing
/// where the engine cannot reduce that column's type.
pub uninterp spec fn column_mean_stat(t: DataFrame, i: int) -> Option<Seq<char>>;

/// The median of the table's `i`th column as the engine renders it, or
/// nothing where the engine cannot reduce that column's type.
pub uninterp spec fn column_median_stat(t: DataFrame, i: int) -> Option<Seq<char>>;

/// The sample standard deviation of the table's `i`th column as the engine
/// renders it, or nothing where the engine cannot reduce that column's type.
pub uninterp spec fn column_std_stat(t: DataFrame, i: int) -> Option<Seq<char>>;

/// The minimum of the table's `i`th column as the engine renders it, or
/// nothing where the engine cannot reduce that column's type.
pub uninterp spec fn column_min_stat(t: DataFrame, i: int) -> Option<Seq<char>>;

/// The maximum of the table's `i`th column as the engine renders it, or
/// nothing where the engine cannot reduce that column's type.
pub uninterp spec fn column_max_stat(t: DataFrame, i: int) -> Option<Seq<char>>;

/// The rows kept once an optional row limit is applied to a parse of `total`
/// rows: the engine retains the first `limit` of them, all where fewer.
pub open spec fn spec_retained(limit: Option<usize>, total: nat) -> nat {
    match limit {
        Some(n) => if n <= total {
            n as nat
        } else {
            total
        },
        None => total,
    }
}

/// The views of an optional column projection.
pub open spec fn proj_view(p: Option<Vec<String>>) -> Option<Seq<Seq<char>>> {
    match p {
        Some(v) => Some(v@.map_values(|s: String| s@)),
        None => None,
    }
}

/// An optional row limit as a mathematical value.
pub open spec fn limit_view(l: Option<usize>) -> Option<int> {
    match l {
        Some(n) => Some(n as int),
        None => None,
    }
}

/// Relies on polars's `CsvReadOptions` reader: `with_n_rows` "limits the
/// number of rows to read", so the result keeps the first `limit` data rows
/// of the parse and all of them where fewer; `with_columns` keeps exactly
/// the named columns, failing if one is absent, and returns them in the
/// file's order, not the selection's. On success the column names and the
/// height are the engine's deterministic reading of these inputs. Nothing
/// is promised of when the parse fails: the reader is multi-threaded, and
/// under a row limit it may or may not notice malformed content beyond the
/// limit, so an error can come back on any input.
#[verifier::external_body]
pub(crate) fn read_delimited(
    bytes: Vec<u8>,
    separator: u8,
    has_header: bool,
    projection: &Option<Vec<String>>,
    limit: Option<usize>,
) -> (r: Result<DataFrame, PolarsError>)
    ensures
        r matches Ok(t) ==> table_columns(t) == delimited_columns(
            bytes@,
            separator,
            has_header,
            proj_view(*projection),
            limit_view(limit),
        ),
        r matches Ok(t) ==> table_height(t) == spec_retained(
            limit,
            delimited_height(bytes@, separator, has_header, proj_view(*projection)),
        ),
        proj_view(*projection) matches Some(p) ==> (r matches Ok(t) ==> table_columns(
            t,
        ).to_set() == p.to_set()),
{
    let cols: Option<std::sync::Arc<[PlSmallStr]>> = projection.as_ref().map(
        |v| v.iter().map(|s| PlSmallStr::from(s.as_str())).collect(),
    );
    CsvReadOptions::default()
        .with_has_header(has_header)
        .with_n_rows(limit)
        .with_columns(cols)
        .with_parse_options(CsvParseOptions::default().with_separator(separator))
        .into_reader_with_file_handle(std::io::Cursor::new(bytes))
        .finish()
}

/// Relies on polars's `ParquetReader`: `with_columns` keeps exactly the
/// named columns, failing if one is absent from the schema; `with_slice`
/// keeps the first `min(limit, total)` rows; and reading in-memory bytes is
/// deterministic in the options given here, succeeding or failing by the
/// inputs alone.
#[verifier::external_body]
pub(crate) fn read_columnar(
    bytes: Vec<u8>,
    projection: &Option<Vec<String>>,
    limit: Option<usize>,
) -> (r: Result<DataFrame, PolarsError>)
    ensures
        r is Ok <==> columnar_parses(bytes@, proj_view(*projection), limit_view(limit)),
        r matches Ok(t) ==> table_columns(t) == columnar_columns(
            bytes@,
            proj_view(*projection),
            limit_view(limit),
        ),
        r matches Ok(t) ==> table_height(t) == spec_retained(
            limit,
            columnar_height(bytes@, proj_view(*projection)),
        ),
        proj_view(*projection) matches Some(p) ==> (r matches Ok(t) ==> table_columns(
            t,
        ).to_set() == p.to_set()),
{
    ParquetReader::new(std::io::Cursor::new(bytes))
        .with_columns(projection.clone())
        .with_slice(limit.map(|n| (0, n)))
        .finish()
}

/// Relies on `DataFrame::get_column_names_owned`: the names of the columns,
/// in the table's own order.
#[verifier::external_body]
pub(crate) fn column_names(t: &DataFrame) -> (r: Vec<String>)
    ensures
        r@.map_values(|s: String| s@) == table_columns(*t),
{
    t.get_column_names_owned().into_iter().map(|s| s.to_string()).collect()
}

/// Relies on `DataFrame::height`: the table's row count.
#[verifier::external_body]
pub(crate) fn row_count(t: &DataFrame) -> (r: usize)
    ensures
        r == table_height(*t),
{
    t.height()
}

/// Relies on `DataFrame::tail`: the last `min(height, n)` rows, with the
/// columns unchanged.
#[verifier::external_body]
pub(crate) fn take_tail(t: &DataFrame, n: usize) -> (r: DataFrame)
    ensures
        table_columns(r) == table_columns(*t),
        table_height(r) == if table_height(*t) <= n {
            table_height(*t)
        } else {
            n as nat
        },
{
    t.tail(Some(n))
}

/// Relies on `DataFrame::sample_n_literal` without replacement: it fails
/// exactly when more rows are asked for than the table holds, and otherwise
/// returns `n` of the table's rows with the columns unchanged. Which rows
/// come back may differ from call to call.
#[verifier::external_body]
pub(crate) fn take_sample(t: &DataFrame, n: usize) -> (r: Result<DataFrame, PolarsError>)
    ensures
        r is Ok <==> n <= table_height(*t),
        r matches Ok(s) ==> table_columns(s) == table_columns(*t) && table_height(s) == n,
{
    t.sample_n_literal(n, false, None, None)
}

/// Relies on `Column::null_count`: how many of the column's `height` entries
/// are null, so never more than the table's height.
#[verifier::external_body]
pub(crate) fn column_null_count(t: &DataFrame, i: usize) -> (r: usize)
    requires
        i < table_columns(*t).len(),
    ensures
        r == column_nulls(*t, i as int),
        r <= table_height(*t),
{
    t.columns()[i].null_count()
}

/// Relies on `Series::mean_reduce`: the column's mean, rendered as the
/// engine displays the resulting scalar; it fails, deterministically in the
/// column alone, exactly on the types the engine cannot reduce. The
/// rendered text follows polars' process-wide scalar-formatting settings,
/// which nothing in this crate alters.
#[verifier::external_body]
pub(crate) fn column_mean_text(t: &DataFrame, i: usize) -> (r: Result<String, PolarsError>)
    requires
        i < table_columns(*t).len(),
    ensures
        r is Ok <==> column_mean_stat(*t, i as int) is Some,
        r matches Ok(s) ==> column_mean_stat(*t, i as int) == Some(s@),
{
    let s = t.columns()[i].as_materialized_series();
    s.mean_reduce().map(|sc| format!("{}", sc.value()))
}

/// Relies on `SeriesTrait::median_reduce`: the column's median, rendered as
/// the engine displays the resulting scalar; it fails, deterministically in
/// the column alone, exactly on the types the engine cannot reduce. The
/// rendered text follows polars' process-wide scalar-formatting settings,
/// which nothing in this crate alters.
#[verifier::external_body]
pub(crate) fn column_median_text(t: &DataFrame, i: usize) -> (r: Result<String, PolarsError>)
    requires
        i < table_columns(*t).len(),
    ensures
        r is Ok <==> column_median_stat(*t, i as int) is Some,
        r matches Ok(s) ==> column_median_stat(*t, i as int) == Some(s@),
{
    let s = t.columns()[i].as_materialized_series();
    s.median_reduce().map(|sc| format!("{}", sc.value()))
}

/// Relies on `SeriesTrait::std_reduce` with one delta degree of freedom (the
/// sample standard deviation): rendered as the engine displays the resulting
/// scalar; it fails, deterministically in the column alone, exactly on the
/// types the engine cannot reduce. The
/// rendered text follows polars' process-wide scalar-formatting settings,
/// which nothing in this crate alters.
#[verifier::external_body]
pub(crate) fn column_std_text(t: &DataFrame, i: usize) -> (r: Result<String, PolarsError>)
    requires
        i < table_columns(*t).len(),
    ensures
        r is Ok <==> column_std_stat(*t, i as int) is Some,
        r matches Ok(s) ==> column_std_stat(*t, i as int) == Some(s@),
{
    let s = t.columns()[i].as_materialized_series();
    s.std_reduce(1).map(|sc| format!("{}", sc.value()))
}

/// Relies on `SeriesTrait::min_reduce`: the column's minimum, rendered as
/// the engine displays the resulting scalar; it fails, deterministically in
/// the column alone, exactly on the types the engine cannot reduce. The
/// rendered text follows polars' process-wide scalar-formatting settings,
/// which nothing in this crate alters.
#[verifier::external_body]
pub(crate) fn column_min_text(t: &DataFrame, i: usize) -> (r: Result<String, PolarsError>)
    requires
        i < table_columns(*t).len(),
    ensures
        r is Ok <==> column_min_stat(*t, i as int) is Some,
        r matches Ok(s) ==> column_min_stat(*t, i as int) == Some(s@),
{
    let s = t.columns()[i].as_materialized_series();
    s.min_reduce().map(|sc| format!("{}", sc.value()))
}

/// Relies on `SeriesTrait::max_reduce`: the column's maximum, rendered as
/// the engine displays the resulting scalar; it fails, deterministically in
/// the column alone, exactly on the types the engine cannot reduce. The
/// rendered text follows polars' process-wide scalar-formatting settings,
/// which nothing in this crate alters.
#[verifier::external_body]
pub(crate) fn column_max_text(t: &DataFrame, i: usize) -> (r: Result<String, PolarsError>)
    requires
        i < table_columns(*t).len(),
    ensures
        r is Ok <==> column_max_stat(*t, i as int) is Some,
        r matches Ok(s) ==> column_max_stat(*t, i as int) == Some(s@),
{
    let s = t.columns()[i].as_materialized_series();
    s.max_reduce().map(|sc| format!("{}", sc.value()))
}

} // verus!
