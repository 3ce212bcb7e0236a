use vstd::prelude::*;
use crate::args::string_views;
use crate::config::{ResolvedConfig, ViewMode};
use crate::engine::{
    column_max_stat, column_max_text, column_mean_stat, column_mean_text, column_median_stat,
    column_median_text, column_min_stat, column_min_text, column_names, column_null_count,
    column_nulls, column_std_stat, column_std_text, columnar_columns, delimited_columns,
    row_count, table_columns, table_height, take_sample, take_tail,
};
use polars::prelude::DataFrame;

verus! {

/// Per-column summary statistics, one entry of every field for each column:
/// the non-null count, and the engine's rendering of the mean, median,
/// standard deviation, minimum and maximum. A cell is `None` where the
/// engine cannot reduce that column's type (a text column has no mean), so
/// the view as a whole never fails on well-formed data.
#[derive(Debug, PartialEq, Eq)]
pub struct SummaryTable {
    pub columns: Vec<String>,
    pub count: Vec<usize>,
    pub mean: Vec<Option<String>>,
    pub median: Vec<Option<String>>,
    pub std_dev: Vec<Option<String>>,
    pub minimum: Vec<Option<String>>,
    pub maximum: Vec<Option<String>>,
}

/// What one invocation renders: exactly one of a bare column listing, a
/// table, or a per-column statistics summary.
pub enum RenderOutput {
    ColumnListing(Vec<String>),
    TableView(DataFrame),
    SummaryView(SummaryTable),
}

/// The number of rows the tail and sample views hand back: the explicit
/// count, absent one the full row count, and never more than the table holds.
pub open spec fn spec_view_rows(requested: Option<u32>, height: nat) -> nat {
    match requested {
        Some(k) => if k <= height {
            k as nat
        } else {
            height
        },
        None => height,
    }
}

/// The view of an optional statistic cell.
pub open spec fn opt_text_view(o: Option<String>) -> Option<Seq<char>> {
    match o {
        Some(s) => Some(s@),
        None => None,
    }
}

/// The summary of this table: the column names in order; for each column the
/// non-null count (nulls plus count make up the height) and exactly the
/// engine's rendering of its mean, median, standard deviation, minimum and
/// maximum — `None` precisely where the engine cannot reduce that column's
/// type.
pub open spec fn spec_summary(s: SummaryTable, t: DataFrame) -> bool {
    let n = table_columns(t).len();
    &&& string_views(s.columns@) == table_columns(t)
    &&& s.count@.len() == n
    &&& s.mean@.len() == n
    &&& s.median@.len() == n
    &&& s.std_dev@.len() == n
    &&& s.minimum@.len() == n
    &&& s.maximum@.len() == n
    &&& forall|i: int|
        0 <= i < n ==> s.count@[i] + #[trigger] column_nulls(t, i) == table_height(t)
    &&& forall|i: int|
        0 <= i < n ==> #[trigger] column_mean_stat(t, i) == opt_text_view(s.mean@[i])
    &&& forall|i: int|
        0 <= i < n ==> #[trigger] column_median_stat(t, i) == opt_text_view(s.median@[i])
    &&& forall|i: int|
        0 <= i < n ==> #[trigger] column_std_stat(t, i) == opt_text_view(s.std_dev@[i])
    &&& forall|i: int|
        0 <= i < n ==> #[trigger] column_min_stat(t, i) == opt_text_view(s.minimum@[i])
    &&& forall|i: int|
        0 <= i < n ==> #[trigger] column_max_stat(t, i) == opt_text_view(s.maximum@[i])
}

/// Selects and produces exactly one view of the loaded table, chosen by the
/// resolved view mode: columns-only lists the column names in order; head
/// and full hand the already-budgeted table back unchanged; tail keeps the
/// last rows and sample draws rows without replacement, both counting the
/// explicit row count against the table's height; describe reduces every
/// column to its summary statistics, leaving a cell empty where the engine
/// cannot reduce that column's type. No view fails.
pub fn dispatch(config: &ResolvedConfig, table: DataFrame) -> (r: RenderOutput)
    ensures
        config.mode == ViewMode::ColumnsOnly ==> (r matches RenderOutput::ColumnListing(names)
            && string_views(names@) == table_columns(table)),
        config.mode == ViewMode::Head || config.mode == ViewMode::Full ==> (r matches
            RenderOutput::TableView(t) && t == table),
        config.mode == ViewMode::Tail || config.mode == ViewMode::Sample ==> (r matches
            RenderOutput::TableView(t) && table_columns(t) == table_columns(table)
            && table_height(t) == spec_view_rows(config.requested_rows, table_height(table))),
        config.mode == ViewMode::Describe ==> (r matches RenderOutput::SummaryView(s)
            && spec_summary(s, table)),
{
    match config.mode {
        ViewMode::ColumnsOnly => RenderOutput::ColumnListing(column_names(&table)),
        ViewMode::Head | ViewMode::Full => RenderOutput::TableView(table),
        ViewMode::Tail => {
            let h: usize = row_count(&table);
            let n: usize = match config.requested_rows {
                Some(k) => k as usize,
                None => h,
            };
            RenderOutput::TableView(take_tail(&table, n))
        },
        ViewMode::Sample => {
            let h: usize = row_count(&table);
            let n: usize = match config.requested_rows {
                Some(k) => if (k as usize) <= h {
                    k as usize
                } else {
                    h
                },
                None => h,
            };
            match take_sample(&table, n) {
                Ok(t) => RenderOutput::TableView(t),
                Err(_) => unreached(),
            }
        },
        ViewMode::Describe => RenderOutput::SummaryView(summarize(&table)),
    }
}

/// The describe view's body: every retained column reduced to its non-null
/// count, mean, median, standard deviation, minimum and maximum, all
/// computed by the engine; a statistic the engine has not got for the
/// column's type is left empty rather than failing the view.
fn summarize(table: &DataFrame) -> (r: SummaryTable)
    ensures
        spec_summary(r, *table),
{
    let names: Vec<String> = column_names(table);
    let h: usize = row_count(table);
    let mut count: Vec<usize> = Vec::new();
    let mut mean: Vec<Option<String>> = Vec::new();
    let mut median: Vec<Option<String>> = Vec::new();
    let mut std_dev: Vec<Option<String>> = Vec::new();
    let mut minimum: Vec<Option<String>> = Vec::new();
    let mut maximum: Vec<Option<String>> = Vec::new();
    let total: usize = names.len();
    proof {
        assert(names@.len() == table_columns(*table).len());
    }
    let mut i: usize = 0;
    while i < total
        invariant
            total == names@.len(),
            names@.len() == table_columns(*table).len(),
            string_views(names@) == table_columns(*table),
            h == table_height(*table),
            i <= total,
            count@.len() == i,
            mean@.len() == i,
            median@.len() == i,
            std_dev@.len() == i,
            minimum@.len() == i,
            maximum@.len() == i,
            forall|j: int| 0 <= j < i ==> count@[j] + #[trigger] column_nulls(*table, j) == h,
            forall|j: int|
                0 <= j < i ==> #[trigger] column_mean_stat(*table, j) == opt_text_view(mean@[j]),
            forall|j: int|
                0 <= j < i ==> #[trigger] column_median_stat(*table, j) == opt_text_view(
                    median@[j],
                ),
            forall|j: int|
                0 <= j < i ==> #[trigger] column_std_stat(*table, j) == opt_text_view(
                    std_dev@[j],
                ),
            forall|j: int|
                0 <= j < i ==> #[trigger] column_min_stat(*table, j) == opt_text_view(
                    minimum@[j],
                ),
            forall|j: int|
                0 <= j < i ==> #[trigger] column_max_stat(*table, j) == opt_text_view(
                    maximum@[j],
                ),
        decreases total - i,
    {
        let nulls: usize = column_null_count(table, i);
        count.push(h - nulls);
        mean.push(column_mean_text(table, i).ok());
        median.push(column_median_text(table, i).ok());
        std_dev.push(column_std_text(table, i).ok());
        minimum.push(column_min_text(table, i).ok());
        maximum.push(column_max_text(table, i).ok());
        i += 1;
    }
    SummaryTable { columns: names, count, mean, median, std_dev, minimum, maximum }
}

/// Running the columns-only view twice on the same source yields identical
/// output: the engine's delimited reader is deterministic in its inputs, so
/// two tables loaded from the same bytes with the same options list the same
/// columns — same order, no de-duplication.
pub proof fn lemma_columns_view_idempotent(
    bytes: Seq<u8>,
    separator: u8,
    has_header: bool,
    projection: Option<Seq<Seq<char>>>,
    limit: Option<int>,
    t1: DataFrame,
    t2: DataFrame,
)
    requires
        table_columns(t1) == delimited_columns(bytes, separator, has_header, projection, limit),
        table_columns(t2) == delimited_columns(bytes, separator, has_header, projection, limit),
    ensures
        table_columns(t1) == table_columns(t2),
{
}

/// The same law for a columnar binary source: the engine's Parquet reader is
/// deterministic in its inputs, so the columns-only view of two tables
/// loaded from the same bytes with the same options is identical.
pub proof fn lemma_columns_view_idempotent_columnar(
    bytes: Seq<u8>,
    projection: Option<Seq<Seq<char>>>,
    limit: Option<int>,
    t1: DataFrame,
    t2: DataFrame,
)
    requires
        table_columns(t1) == columnar_columns(bytes, projection, limit),
        table_columns(t2) == columnar_columns(bytes, projection, limit),
    ensures
        table_columns(t1) == table_columns(t2),
{
}

} // verus!
