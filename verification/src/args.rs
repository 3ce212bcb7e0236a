use vstd::prelude::*;
use crate::config::{
    ResolvedConfig, RowBudget, SourceKind, ViewMode, resolve_delimiter, resolve_render_settings,
    resolve_row_budget, spec_delimiter, spec_render_settings, spec_row_budget,
};
use crate::errors::{Flag, PreviewError};
use crate::file_format::{FileFormat, resolve_format, spec_format};

verus! {

/// The raw command-line input, exactly as the flags were given: nothing is
/// resolved or checked yet.
#[derive(Debug)]
pub struct RawArgs {
    /// The positional path; `-` means standard input.
    pub filepath: String,
    /// `-n/--max-rows`.
    pub max_rows: Option<u32>,
    /// `-d/--delimiter`.
    pub delimiter: Option<char>,
    /// `-s/--select`, the raw comma-separated string.
    pub select_columns: Option<String>,
    /// `--no-header`.
    pub no_header: bool,
    /// `-c/--column-names-only`.
    pub column_names_only: bool,
    /// `-D/--describe`.
    pub describe: bool,
    /// `--head`.
    pub head: bool,
    /// `--tail`.
    pub tail: bool,
    /// `--sample`.
    pub sample: bool,
    /// `-m/--markdown`.
    pub markdown: bool,
}

/// The first pair of flags that may not be combined, in the order the checks
/// are made: head, tail and sample are pairwise exclusive, and columns-only
/// excludes every other view-affecting flag.
pub open spec fn spec_conflict(a: RawArgs) -> Option<(Flag, Flag)> {
    if a.head && a.tail {
        Some((Flag::Head, Flag::Tail))
    } else if a.head && a.sample {
        Some((Flag::Head, Flag::Sample))
    } else if a.tail && a.sample {
        Some((Flag::Tail, Flag::Sample))
    } else if a.column_names_only && a.head {
        Some((Flag::ColumnNamesOnly, Flag::Head))
    } else if a.column_names_only && a.tail {
        Some((Flag::ColumnNamesOnly, Flag::Tail))
    } else if a.column_names_only && a.sample {
        Some((Flag::ColumnNamesOnly, Flag::Sample))
    } else if a.column_names_only && a.max_rows is Some {
        Some((Flag::ColumnNamesOnly, Flag::MaxRows))
    } else if a.column_names_only && a.select_columns is Some {
        Some((Flag::ColumnNamesOnly, Flag::SelectColumns))
    } else if a.column_names_only && a.no_header {
        Some((Flag::ColumnNamesOnly, Flag::NoHeader))
    } else if a.column_names_only && a.describe {
        Some((Flag::ColumnNamesOnly, Flag::Describe))
    } else if a.column_names_only && a.markdown {
        Some((Flag::ColumnNamesOnly, Flag::Markdown))
    } else {
        None
    }
}

/// The single view mode the flags select. Columns-only wins (its conflicts
/// with the other modes are rejected beforehand); describe outranks the row
/// views so that a combination such as `--describe --head` summarizes rather
/// than truncates; head, tail and sample are pairwise exclusive by then; with
/// no mode flag at all the whole table is printed.
pub open spec fn spec_mode(a: RawArgs) -> ViewMode {
    if a.column_names_only {
        ViewMode::ColumnsOnly
    } else if a.describe {
        ViewMode::Describe
    } else if a.head {
        ViewMode::Head
    } else if a.tail {
        ViewMode::Tail
    } else if a.sample {
        ViewMode::Sample
    } else {
        ViewMode::Full
    }
}

/// The views of a sequence of strings.
pub open spec fn string_views(v: Seq<String>) -> Seq<Seq<char>> {
    v.map_values(|s: String| s@)
}

/// The pieces glued back together with a comma between each two: the inverse
/// of splitting on commas.
pub open spec fn join_commas(pieces: Seq<Seq<char>>) -> Seq<char>
    decreases pieces.len(),
{
    if pieces.len() == 0 {
        Seq::empty()
    } else if pieces.len() == 1 {
        pieces[0]
    } else {
        pieces[0] + seq![','] + join_commas(pieces.drop_first())
    }
}

pub proof fn lemma_join_push(pieces: Seq<Seq<char>>, p: Seq<char>)
    ensures
        join_commas(pieces.push(p)) == if pieces.len() == 0 {
            p
        } else {
            join_commas(pieces) + seq![','] + p
        },
    decreases pieces.len(),
{
    if pieces.len() == 0 {
        assert(pieces.push(p)[0] == p);
        assert(join_commas(pieces.push(p)) == p);
    } else if pieces.len() == 1 {
        assert(pieces.push(p)[0] == pieces[0]);
        assert(pieces.push(p).drop_first() =~= seq![p]);
        assert(join_commas(seq![p]) == p);
        assert(join_commas(pieces.push(p)) == pieces[0] + seq![','] + p);
        assert(join_commas(pieces) == pieces[0]);
    } else {
        assert(pieces.push(p)[0] == pieces[0]);
        assert(pieces.push(p).drop_first() =~= pieces.drop_first().push(p));
        lemma_join_push(pieces.drop_first(), p);
        assert(join_commas(pieces.push(p)) == pieces[0] + seq![','] + (join_commas(
            pieces.drop_first(),
        ) + seq![','] + p));
        assert(join_commas(pieces) == pieces[0] + seq![','] + join_commas(pieces.drop_first()));
        assert(pieces[0] + seq![','] + (join_commas(pieces.drop_first()) + seq![','] + p) =~= (
        pieces[0] + seq![','] + join_commas(pieces.drop_first())) + seq![','] + p);
    }
}

/// Splits a raw comma-separated string into the ordered column names, with no
/// de-duplication and no trimming: names are taken literally, so that the
/// user-supplied projection order is preserved. The result always has at
/// least one piece, none of its pieces holds a comma, and joining them with
/// commas gives the input back.
pub fn split_projection(s: &str) -> (r: Vec<String>)
    ensures
        r@.len() >= 1,
        join_commas(string_views(r@)) == s@,
        forall|j: int| 0 <= j < r@.len() ==> !string_views(r@)[j].contains(','),
{
    let n: usize = s.unicode_len();
    let mut r: Vec<String> = Vec::new();
    let mut start: usize = 0;
    let mut i: usize = 0;
    while i < n
        invariant
            n == s@.len(),
            start <= i <= n,
            r@.len() == 0 ==> start == 0,
            r@.len() > 0 ==> join_commas(string_views(r@)) + seq![','] == s@.subrange(
                0,
                start as int,
            ),
            forall|k: int| start <= k < i ==> s@[k] != ',',
            forall|j: int| 0 <= j < r@.len() ==> !string_views(r@)[j].contains(','),
        decreases n - i,
    {
        if s.get_char(i) == ',' {
            let piece: String = s.substring_char(start, i).to_owned();
            proof {
                assert(piece@ =~= s@.subrange(start as int, i as int));
                assert forall|k: int| 0 <= k < piece@.len() implies piece@[k] != ',' by {
                    assert(piece@[k] == s@[start + k]);
                }
                assert(!piece@.contains(','));
                lemma_join_push(string_views(r@), piece@);
            }
            let ghost old_r = r@;
            r.push(piece);
            proof {
                assert(string_views(r@) =~= string_views(old_r).push(piece@));
                if old_r.len() == 0 {
                    assert(join_commas(string_views(r@)) == piece@);
                    assert(join_commas(string_views(r@)) + seq![','] =~= s@.subrange(
                        0,
                        (i + 1) as int,
                    ));
                } else {
                    assert(join_commas(string_views(r@)) =~= s@.subrange(0, start as int)
                        + s@.subrange(start as int, i as int));
                    assert(s@.subrange(0, start as int) + s@.subrange(start as int, i as int)
                        =~= s@.subrange(0, i as int));
                    assert(join_commas(string_views(r@)) + seq![','] =~= s@.subrange(
                        0,
                        (i + 1) as int,
                    ));
                }
            }
            start = i + 1;
        }
        i += 1;
    }
    let last: String = s.substring_char(start, n).to_owned();
    proof {
        assert(last@ =~= s@.subrange(start as int, n as int));
        assert forall|k: int| 0 <= k < last@.len() implies last@[k] != ',' by {
            assert(last@[k] == s@[start + k]);
        }
        assert(!last@.contains(','));
        lemma_join_push(string_views(r@), last@);
    }
    let ghost old_r = r@;
    r.push(last);
    proof {
        assert(string_views(r@) =~= string_views(old_r).push(last@));
        if old_r.len() == 0 {
            assert(join_commas(string_views(r@)) =~= s@);
        } else {
            assert(join_commas(string_views(r@)) =~= s@.subrange(0, start as int) + s@.subrange(
                start as int,
                n as int,
            ));
            assert(s@.subrange(0, start as int) + s@.subrange(start as int, n as int) =~= s@);
        }
    }
    r
}

/// Enforces mutual exclusivity among the flags and builds the resolved
/// configuration: conflicts are reported first (fail fast, before any file
/// is touched); a path whose extension is not in the known set is rejected;
/// standard input is taken as delimited text with the override-or-comma
/// delimiter.
pub fn validate(args: RawArgs) -> (r: Result<ResolvedConfig, PreviewError>)
    ensures
        spec_conflict(args) matches Some(pair) ==> r == Err::<ResolvedConfig, PreviewError>(
            PreviewError::ConflictingFlags(pair.0, pair.1),
        ),
        r is Ok <==> spec_conflict(args) is None && (args.filepath@ == "-"@ || spec_format(
            args.filepath@,
        ) != FileFormat::Unknown),
        spec_conflict(args) is None && args.filepath@ != "-"@ && spec_format(args.filepath@)
            == FileFormat::Unknown ==> (r matches Err(PreviewError::UnrecognizedFormat(p))
            && p@ == args.filepath@),
        r matches Ok(c) ==> {
            &&& c.mode == spec_mode(args)
            &&& c.budget == spec_row_budget(spec_mode(args), args.max_rows)
            &&& c.requested_rows == args.max_rows
            &&& c.has_header == !args.no_header
            &&& c.render == spec_render_settings(args.markdown)
            &&& (args.filepath@ == "-"@ ==> c.source == SourceKind::StandardInput && c.format
                == FileFormat::Unknown)
            &&& (args.filepath@ != "-"@ ==> (c.source matches SourceKind::FilePath(p) && p@
                == args.filepath@ && c.format == spec_format(args.filepath@)))
            &&& (c.format != FileFormat::ColumnarBinary ==> c.delimiter == spec_delimiter(
                c.format,
                args.delimiter,
            ))
            &&& (c.format == FileFormat::ColumnarBinary ==> c.delimiter == ',')
            &&& (args.select_columns is None ==> c.projection is None)
            &&& (args.select_columns matches Some(sc) ==> c.projection matches Some(v)
                && v@.len() >= 1 && join_commas(string_views(v@)) == sc@ && (forall|j: int|
                0 <= j < v@.len() ==> !string_views(v@)[j].contains(',')))
        },
{
    if args.head && args.tail {
        return Err(PreviewError::ConflictingFlags(Flag::Head, Flag::Tail));
    }
    if args.head && args.sample {
        return Err(PreviewError::ConflictingFlags(Flag::Head, Flag::Sample));
    }
    if args.tail && args.sample {
        return Err(PreviewError::ConflictingFlags(Flag::Tail, Flag::Sample));
    }
    if args.column_names_only && args.head {
        return Err(PreviewError::ConflictingFlags(Flag::ColumnNamesOnly, Flag::Head));
    }
    if args.column_names_only && args.tail {
        return Err(PreviewError::ConflictingFlags(Flag::ColumnNamesOnly, Flag::Tail));
    }
    if args.column_names_only && args.sample {
        return Err(PreviewError::ConflictingFlags(Flag::ColumnNamesOnly, Flag::Sample));
    }
    if args.column_names_only && args.max_rows.is_some() {
        return Err(PreviewError::ConflictingFlags(Flag::ColumnNamesOnly, Flag::MaxRows));
    }
    if args.column_names_only && args.select_columns.is_some() {
        return Err(PreviewError::ConflictingFlags(Flag::ColumnNamesOnly, Flag::SelectColumns));
    }
    if args.column_names_only && args.no_header {
        return Err(PreviewError::ConflictingFlags(Flag::ColumnNamesOnly, Flag::NoHeader));
    }
    if args.column_names_only && args.describe {
        return Err(PreviewError::ConflictingFlags(Flag::ColumnNamesOnly, Flag::Describe));
    }
    if args.column_names_only && args.markdown {
        return Err(PreviewError::ConflictingFlags(Flag::ColumnNamesOnly, Flag::Markdown));
    }
    let dash: String = "-".to_owned();
    let is_stdin: bool = args.filepath == dash;
    let format: FileFormat = if is_stdin {
        FileFormat::Unknown
    } else {
        resolve_format(args.filepath.as_str())
    };
    if !is_stdin && format == FileFormat::Unknown {
        return Err(PreviewError::UnrecognizedFormat(args.filepath));
    }
    let mode: ViewMode = if args.column_names_only {
        ViewMode::ColumnsOnly
    } else if args.describe {
        ViewMode::Describe
    } else if args.head {
        ViewMode::Head
    } else if args.tail {
        ViewMode::Tail
    } else if args.sample {
        ViewMode::Sample
    } else {
        ViewMode::Full
    };
    let budget: RowBudget = resolve_row_budget(mode, args.max_rows);
    let delimiter: char = if format == FileFormat::ColumnarBinary {
        ','
    } else {
        resolve_delimiter(format, args.delimiter)
    };
    let projection: Option<Vec<String>> = match args.select_columns {
        None => None,
        Some(sc) => Some(split_projection(sc.as_str())),
    };
    let render = resolve_render_settings(args.markdown);
    let source: SourceKind = if is_stdin {
        SourceKind::StandardInput
    } else {
        SourceKind::FilePath(args.filepath)
    };
    Ok(
        ResolvedConfig {
            source,
            format,
            delimiter,
            has_header: !args.no_header,
            projection,
            budget,
            requested_rows: args.max_rows,
            mode,
            render,
        },
    )
}

} // verus!
