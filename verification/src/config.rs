use vstd::prelude::*;
use crate::file_format::FileFormat;

verus! {

/// The single selected output behaviour for one invocation. `Full` is the
/// default when no mode flag is given.
#[derive(Clone, Copy, Debug, PartialEq, Eq, Structural)]
pub enum ViewMode {
    Head,
    Tail,
    Sample,
    Describe,
    ColumnsOnly,
    Full,
}

/// How many rows the loader must materialize: a bounded count, or all rows
/// in the source.
#[derive(Clone, Copy, Debug, PartialEq, Eq, Structural)]
pub enum RowBudget {
    Bounded(u32),
    Unbounded,
}

/// Where the bytes come from: a path, or standard input (the `-` sentinel).
#[derive(Debug, PartialEq, Eq)]
pub enum SourceKind {
    StandardInput,
    FilePath(String),
}

/// How the renderer draws a table.
#[derive(Clone, Copy, Debug, PartialEq, Eq, Structural)]
pub enum DisplayStyle {
    BoxDrawing,
    Markdown,
}

/// A cap on how much of a table the renderer shows.
#[derive(Clone, Copy, Debug, PartialEq, Eq, Structural)]
pub enum DisplayLimit {
    /// Show everything.
    Unlimited,
    /// Leave the engine's own default in place.
    EngineDefault,
}

/// Presentation settings handed to the rendering engine before the first
/// print, as an explicit value rather than ambient process state.
#[derive(Clone, Copy, Debug, PartialEq, Eq, Structural)]
pub struct RenderSettings {
    pub style: DisplayStyle,
    pub max_display_rows: DisplayLimit,
    pub max_display_cols: DisplayLimit,
    pub shape_below: bool,
    pub rounded_corners: bool,
}

/// The default page size of the `Head` view when no explicit count is given.
pub const HEAD_DEFAULT_ROWS: u32 = 10;

/// The delimiter that an invocation settles on: an explicit override always
/// wins; otherwise tab-delimited text gets a tab and everything else a comma.
pub open spec fn spec_delimiter(format: FileFormat, user_override: Option<char>) -> char {
    match user_override {
        Some(c) => c,
        None => match format {
            FileFormat::DelimitedTab => '\t',
            _ => ',',
        },
    }
}

/// Picks the effective field delimiter. Pure, with no failure path. Must not
/// be called for the columnar binary format, which has no delimiter concept.
pub fn resolve_delimiter(format: FileFormat, user_override: Option<char>) -> (r: char)
    requires
        format != FileFormat::ColumnarBinary,
    ensures
        r == spec_delimiter(format, user_override),
{
    match user_override {
        Some(c) => c,
        None => match format {
            FileFormat::DelimitedTab => '\t',
            _ => ',',
        },
    }
}

/// The row budget an invocation settles on, in strict precedence order:
/// columns-only needs one row whatever else was asked; tail and sample need
/// the whole table; otherwise an explicit count wins; head alone defaults to
/// `HEAD_DEFAULT_ROWS`; everything else is unbounded.
pub open spec fn spec_row_budget(mode: ViewMode, explicit_count: Option<u32>) -> RowBudget {
    if mode == ViewMode::ColumnsOnly {
        RowBudget::Bounded(1)
    } else if mode == ViewMode::Tail || mode == ViewMode::Sample {
        RowBudget::Unbounded
    } else if explicit_count is Some {
        RowBudget::Bounded(explicit_count->0)
    } else if mode == ViewMode::Head {
        RowBudget::Bounded(HEAD_DEFAULT_ROWS)
    } else {
        RowBudget::Unbounded
    }
}

/// Computes how many rows the loader must materialize for the given view
/// mode. The order of the rules is load-bearing: an explicit count must not
/// override the unconditional unboundedness of tail and sample, but must
/// override the head default.
pub fn resolve_row_budget(mode: ViewMode, explicit_count: Option<u32>) -> (r: RowBudget)
    ensures
        r == spec_row_budget(mode, explicit_count),
{
    if mode == ViewMode::ColumnsOnly {
        RowBudget::Bounded(1)
    } else if mode == ViewMode::Tail || mode == ViewMode::Sample {
        RowBudget::Unbounded
    } else if let Some(n) = explicit_count {
        RowBudget::Bounded(n)
    } else if mode == ViewMode::Head {
        RowBudget::Bounded(HEAD_DEFAULT_ROWS)
    } else {
        RowBudget::Unbounded
    }
}

/// The presentation settings for one invocation: every row is shown; the
/// markdown style lifts the column cap as well, while the default style keeps
/// the engine's column cap and asks for rounded corners.
pub open spec fn spec_render_settings(markdown: bool) -> RenderSettings {
    RenderSettings {
        style: if markdown {
            DisplayStyle::Markdown
        } else {
            DisplayStyle::BoxDrawing
        },
        max_display_rows: DisplayLimit::Unlimited,
        max_display_cols: if markdown {
            DisplayLimit::Unlimited
        } else {
            DisplayLimit::EngineDefault
        },
        shape_below: true,
        rounded_corners: !markdown,
    }
}

/// Builds the presentation settings from the markdown switch.
pub fn resolve_render_settings(markdown: bool) -> (r: RenderSettings)
    ensures
        r == spec_render_settings(markdown),
{
    RenderSettings {
        style: if markdown {
            DisplayStyle::Markdown
        } else {
            DisplayStyle::BoxDrawing
        },
        max_display_rows: DisplayLimit::Unlimited,
        max_display_cols: if markdown {
            DisplayLimit::Unlimited
        } else {
            DisplayLimit::EngineDefault
        },
        shape_below: true,
        rounded_corners: !markdown,
    }
}

/// The authoritative set of effective settings for one invocation, built once
/// from raw command-line input, immutable thereafter, and consumed exactly
/// once to produce a table and a render call.
#[derive(Debug, PartialEq, Eq)]
pub struct ResolvedConfig {
    pub source: SourceKind,
    pub format: FileFormat,
    /// Meaningful for delimited text only; the loader ignores it for the
    /// columnar binary format.
    pub delimiter: char,
    pub has_header: bool,
    /// The ordered column names to retain; `None` means all columns.
    pub projection: Option<Vec<String>>,
    pub budget: RowBudget,
    /// The explicit row count, kept for the views that use it after loading.
    pub requested_rows: Option<u32>,
    pub mode: ViewMode,
    pub render: RenderSettings,
}

} // verus!
