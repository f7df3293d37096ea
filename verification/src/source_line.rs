//! The copied source line plus a caret marker under the failing column.

use vstd::prelude::*;

use crate::colors::cyan;
use crate::colors::cyan_of;
use crate::colors::red;
use crate::colors::red_of;
use crate::colors::yellow;
use crate::colors::yellow_of;
use crate::text::contains_seq;
use crate::text::dec_int;
use crate::text::i64_to_dec;
use crate::text::indent_spaces;
use crate::text::spaces;
use crate::text::str_contains;
use crate::SOURCE_ABBREV_THRESHOLD;

verus! {

/// The view of an optional string.
pub open spec fn opt_str_view(s: Option<&str>) -> Option<Seq<char>> {
    match s {
        Some(t) => Some(t@),
        None => None,
    }
}

/// The alignment prefix under a source line for a 1-based column: one
/// character per source character before the column, a tab where the source
/// has a tab (to keep visual alignment under any tab width), else a space.
pub open spec fn caret_prefix(s: Seq<char>, c: int) -> Seq<char> {
    Seq::new(
        if c < 1 {
            0
        } else {
            (c - 1) as nat
        },
        |i: int|
            if s[i] == '\t' {
                '\t'
            } else {
                ' '
            },
    )
}

/// The inline warning for a column that lies outside the source line.
pub open spec fn out_of_bounds_warning(c: int) -> Seq<char> {
    "\n"@ + yellow_of("Warning"@) + " Couldn't format source line: Column "@ + dec_int(c)
        + " is out of bounds (source may have changed at runtime)"@
}

/// The rendered source-line fragment: empty when the line or the column is
/// absent, the line is empty, or the line is longer than the display
/// threshold; the line passed through after a newline when it is itself a
/// formatting diagnostic; the out-of-bounds warning when the column lies
/// outside the line; otherwise the line and a styled caret line under the
/// column, each after a newline and `level` spaces of indentation.
pub open spec fn source_line_fragment(
    source_line: Option<Seq<char>>,
    column_number: Option<i64>,
    is_error: bool,
    level: nat,
) -> Seq<char> {
    match source_line {
        None => Seq::<char>::empty(),
        Some(s) => match column_number {
            None => Seq::<char>::empty(),
            Some(c) => {
                if s.len() == 0 || s.len() > SOURCE_ABBREV_THRESHOLD {
                    Seq::<char>::empty()
                } else if contains_seq(s, "Couldn't format source line: "@) {
                    "\n"@ + s
                } else if c < 0 || c as int > s.len() {
                    out_of_bounds_warning(c as int)
                } else {
                    let underline = caret_prefix(s, c as int) + "^"@;
                    "\n"@ + spaces(level) + s + "\n"@ + spaces(level) + (if is_error {
                        red_of(underline)
                    } else {
                        cyan_of(underline)
                    })
                }
            },
        },
    }
}

/// Takes an optional source line and associated information and formats it
/// into a pretty printed fragment, or an empty string when there is nothing
/// to show.
pub fn format_maybe_source_line(
    source_line: Option<&str>,
    column_number: Option<i64>,
    is_error: bool,
    level: usize,
) -> (r: String)
    ensures
        r@ == source_line_fragment(
            opt_str_view(source_line),
            column_number,
            is_error,
            level as nat,
        ),
{
    let (s, c) = match (source_line, column_number) {
        (Some(s), Some(c)) => (s, c),
        _ => {
            return String::new();
        },
    };
    let slen = s.unicode_len();
    if slen == 0 || slen > SOURCE_ABBREV_THRESHOLD {
        return String::new();
    }
    if str_contains(s, "Couldn't format source line: ") {
        let mut r = String::from_str("\n");
        r.append(s);
        return r;
    }
    if c < 0 || c > slen as i64 {
        let mut r = String::from_str("\n");
        r.append(yellow("Warning").as_str());
        r.append(" Couldn't format source line: Column ");
        r.append(i64_to_dec(c).as_str());
        r.append(" is out of bounds (source may have changed at runtime)");
        proof {
            assert(r@ =~= out_of_bounds_warning(c as int));
        }
        return r;
    }
    let bound: usize = if c < 1 {
        0
    } else {
        (c - 1) as usize
    };
    let mut underline = String::new();
    let mut i: usize = 0;
    while i < bound
        invariant
            i <= bound,
            bound == caret_prefix(s@, c as int).len(),
            bound < slen == s@.len(),
            underline@ == caret_prefix(s@, c as int).subrange(0, i as int),
        decreases bound - i,
    {
        if s.get_char(i) == '\t' {
            underline.append("\t");
            proof {
                reveal_strlit("\t");
            }
        } else {
            underline.append(" ");
            proof {
                reveal_strlit(" ");
            }
        }
        proof {
            assert(underline@ =~= caret_prefix(s@, c as int).subrange(0, i + 1));
        }
        i = i + 1;
    }
    underline.append("^");
    proof {
        assert(underline@ =~= caret_prefix(s@, c as int) + "^"@);
    }
    let styled = if is_error {
        red(underline.as_str())
    } else {
        cyan(underline.as_str())
    };
    let indent = indent_spaces(level);
    let mut r = String::from_str("\n");
    r.append(indent.as_str());
    r.append(s);
    r.append("\n");
    r.append(indent.as_str());
    r.append(styled.as_str());
    proof {
        assert(r@ =~= source_line_fragment(
            opt_str_view(source_line),
            column_number,
            is_error,
            level as nat,
        ));
    }
    r
}

/// When the source line or the column number is absent, the fragment is
/// empty.
pub proof fn lemma_fragment_empty_when_absent(
    source_line: Option<Seq<char>>,
    column_number: Option<i64>,
    is_error: bool,
    level: nat,
)
    requires
        source_line is None || column_number is None,
    ensures
        source_line_fragment(source_line, column_number, is_error, level) == Seq::<char>::empty(),
{
}

/// A source line longer than the display threshold yields the empty
/// fragment, whatever the column.
pub proof fn lemma_fragment_empty_when_oversized(
    s: Seq<char>,
    column_number: Option<i64>,
    is_error: bool,
    level: nat,
)
    requires
        s.len() > SOURCE_ABBREV_THRESHOLD,
    ensures
        source_line_fragment(Some(s), column_number, is_error, level) == Seq::<char>::empty(),
{
}

/// A column number beyond the line's character length yields exactly the
/// out-of-bounds warning with that column number substituted, for any line
/// that is shown at all (non-empty, within the threshold, and not itself a
/// formatting diagnostic).
pub proof fn lemma_fragment_warning_when_out_of_bounds(
    s: Seq<char>,
    c: i64,
    is_error: bool,
    level: nat,
)
    requires
        0 < s.len() <= SOURCE_ABBREV_THRESHOLD,
        !contains_seq(s, "Couldn't format source line: "@),
        c as int > s.len(),
    ensures
        source_line_fragment(Some(s), Some(c), is_error, level) == out_of_bounds_warning(c as int),
{
}

} // verus!
