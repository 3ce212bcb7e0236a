use vstd::prelude::*;

verus! {

/// The file format of a source, derived once from the path's extension and
/// never re-derived mid-run.
#[derive(Clone, Copy, Debug, PartialEq, Eq, Structural)]
pub enum FileFormat {
    DelimitedComma,
    DelimitedTab,
    ColumnarBinary,
    Unknown,
}

/// `s` ends in `suffix`.
pub open spec fn has_suffix(s: Seq<char>, suffix: Seq<char>) -> bool {
    &&& suffix.len() <= s.len()
    &&& s.subrange(s.len() - suffix.len(), s.len() as int) == suffix
}

/// The format a path maps to, decided by its extension alone: `.csv` means
/// comma-delimited text, `.tsv` tab-delimited text, `.parquet` columnar
/// binary, and any other (or missing) extension is `Unknown`. The match is
/// case-sensitive.
pub open spec fn spec_format(path: Seq<char>) -> FileFormat {
    if has_suffix(path, seq!['.', 'c', 's', 'v']) {
        FileFormat::DelimitedComma
    } else if has_suffix(path, seq!['.', 't', 's', 'v']) {
        FileFormat::DelimitedTab
    } else if has_suffix(path, seq!['.', 'p', 'a', 'r', 'q', 'u', 'e', 't']) {
        FileFormat::ColumnarBinary
    } else {
        FileFormat::Unknown
    }
}

/// `s` ends in `suffix`, decided character by character.
fn str_ends_with(s: &str, suffix: &str) -> (r: bool)
    ensures
        r == has_suffix(s@, suffix@),
{
    let n: usize = s.unicode_len();
    let m: usize = suffix.unicode_len();
    if m > n {
        return false;
    }
    let mut i: usize = 0;
    while i < m
        invariant
            m <= n,
            n == s@.len(),
            m == suffix@.len(),
            i <= m,
            forall|j: int| 0 <= j < i ==> s@[n - m + j] == suffix@[j],
        decreases m - i,
    {
        if s.get_char(n - m + i) != suffix.get_char(i) {
            assert(s@.subrange(s@.len() - suffix@.len(), s@.len() as int)[i as int] == s@[n - m
                + i]);
            return false;
        }
        i += 1;
    }
    proof {
        assert(s@.subrange(s@.len() - suffix@.len(), s@.len() as int) =~= suffix@);
    }
    true
}

/// Maps a source path to its `FileFormat`. No failure path: an unrecognized
/// or missing extension yields `FileFormat::Unknown`, which the caller must
/// handle.
pub fn resolve_format(path: &str) -> (r: FileFormat)
    ensures
        r == spec_format(path@),
{
    proof {
        reveal_strlit(".csv");
        reveal_strlit(".tsv");
        reveal_strlit(".parquet");
        assert(".csv"@ =~= seq!['.', 'c', 's', 'v']);
        assert(".tsv"@ =~= seq!['.', 't', 's', 'v']);
        assert(".parquet"@ =~= seq!['.', 'p', 'a', 'r', 'q', 'u', 'e', 't']);
    }
    if str_ends_with(path, ".csv") {
        FileFormat::DelimitedComma
    } else if str_ends_with(path, ".tsv") {
        FileFormat::DelimitedTab
    } else if str_ends_with(path, ".parquet") {
        FileFormat::ColumnarBinary
    } else {
        FileFormat::Unknown
    }
}

} // verus!
