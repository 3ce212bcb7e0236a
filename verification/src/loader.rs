use vstd::prelude::*;
use crate::config::{ResolvedConfig, RowBudget, SourceKind};
use crate::engine::{
    columnar_columns, columnar_height, columnar_parses, delimited_columns, delimited_height,
    limit_view, proj_view, read_columnar, read_delimited, spec_retained, table_columns,
    table_height,
};
use crate::errors::PreviewError;
use crate::file_format::FileFormat;
use polars::prelude::DataFrame;

verus! {

/// The label under which a source is named in error messages: its path, or
/// the stdin sentinel.
pub open spec fn spec_source_label(s: SourceKind) -> Seq<char> {
    match s {
        SourceKind::FilePath(p) => p@,
        SourceKind::StandardInput => "-"@,
    }
}

pub(crate) fn source_label_of(s: &SourceKind) -> (r: String)
    ensures
        r@ == spec_source_label(*s),
{
    match s {
        SourceKind::FilePath(p) => p.clone(),
        SourceKind::StandardInput => "-".to_owned(),
    }
}

/// The loader's fail-fast gate, decided before any open is attempted: a path
/// source must already have been probed as a regular file; standard input
/// needs no probe.
pub fn check_source(source: &SourceKind, is_regular_file: bool) -> (r: Result<(), PreviewError>)
    ensures
        r is Ok <==> (source is StandardInput || is_regular_file),
        r matches Err(e) ==> (e matches PreviewError::SourceNotFound(p) && p@ == spec_source_label(
            *source,
        )),
{
    match source {
        SourceKind::StandardInput => Ok(()),
        SourceKind::FilePath(p) => {
            if is_regular_file {
                Ok(())
            } else {
                Err(PreviewError::SourceNotFound(p.clone()))
            }
        },
    }
}

/// The number of rows the engine is told to materialize; `None` means all.
pub open spec fn spec_budget_limit(b: RowBudget) -> Option<usize> {
    match b {
        RowBudget::Bounded(n) => Some(n as usize),
        RowBudget::Unbounded => None,
    }
}

fn budget_limit(b: RowBudget) -> (r: Option<usize>)
    ensures
        r == spec_budget_limit(b),
{
    match b {
        RowBudget::Bounded(n) => Some(n as usize),
        RowBudget::Unbounded => None,
    }
}

/// The single byte the engine separates fields by: the delimiter
/// character's low byte, since the engine reads delimiters as one byte.
pub open spec fn spec_sep_byte(c: char) -> u8 {
    ((c as u32) % 256) as u8
}

fn sep_byte(c: char) -> (r: u8)
    ensures
        r == spec_sep_byte(c),
{
    ((c as u32) % 256) as u8
}

/// Loads the table from the fully buffered source bytes: a columnar binary
/// source goes through the engine's Parquet reader with projection and row
/// budget forwarded; every other source is parsed as delimited text with the
/// resolved delimiter, header flag, projection and row budget forwarded
/// verbatim. For columnar binary it succeeds exactly when the engine's
/// parse does, a function of the bytes and options alone; for delimited
/// text nothing is promised of when the parse fails, since the engine's
/// multi-threaded reader may or may not notice malformed content beyond a
/// row limit. On success the table holds the first `budget` rows of the
/// parse (all of them where the parse has fewer or the budget is
/// unbounded), and with a projection, exactly the projected columns, in the
/// engine's order. A parse failure becomes `UnparseableSource` naming the
/// source.
pub fn load_table(config: &ResolvedConfig, bytes: Vec<u8>) -> (r: Result<DataFrame, PreviewError>)
    ensures
        config.format == FileFormat::ColumnarBinary ==> (r is Ok <==> columnar_parses(
            bytes@,
            proj_view(config.projection),
            limit_view(spec_budget_limit(config.budget)),
        )),
        config.format == FileFormat::ColumnarBinary ==> (r matches Ok(t) ==> (table_columns(t)
            == columnar_columns(
            bytes@,
            proj_view(config.projection),
            limit_view(spec_budget_limit(config.budget)),
        ) && table_height(t) == spec_retained(
            spec_budget_limit(config.budget),
            columnar_height(bytes@, proj_view(config.projection)),
        ))),
        config.format != FileFormat::ColumnarBinary ==> (r matches Ok(t) ==> (table_columns(t)
            == delimited_columns(
            bytes@,
            spec_sep_byte(config.delimiter),
            config.has_header,
            proj_view(config.projection),
            limit_view(spec_budget_limit(config.budget)),
        ) && table_height(t) == spec_retained(
            spec_budget_limit(config.budget),
            delimited_height(
                bytes@,
                spec_sep_byte(config.delimiter),
                config.has_header,
                proj_view(config.projection),
            ),
        ))),
        proj_view(config.projection) matches Some(p) ==> (r matches Ok(t) ==> table_columns(
            t,
        ).to_set() == p.to_set()),
        config.budget matches RowBudget::Bounded(n) ==> (r matches Ok(t) ==> table_height(t)
            <= n),
        r matches Err(e) ==> (e matches PreviewError::UnparseableSource(s) && s@
            == spec_source_label(config.source)),
{
    let limit = budget_limit(config.budget);
    let parsed = match config.format {
        FileFormat::ColumnarBinary => read_columnar(bytes, &config.projection, limit),
        _ => read_delimited(
            bytes,
            sep_byte(config.delimiter),
            config.has_header,
            &config.projection,
            limit,
        ),
    };
    match parsed {
        Ok(t) => {
            proof {
                match config.budget {
                    RowBudget::Bounded(b) => {
                        assert(spec_budget_limit(config.budget) == Some(b as usize));
                        assert(limit == Some(b as usize));
                        assert(table_height(t) <= b);
                    },
                    RowBudget::Unbounded => {},
                }
            }
            Ok(t)
        },
        Err(_) => Err(PreviewError::UnparseableSource(source_label_of(&config.source))),
    }
}

} // verus!
