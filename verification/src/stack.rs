//! Assembly of the full report: message line, optional source-line
//! indicator, ordered frame list, and the recursive `Caused by` chain.

use vstd::prelude::*;
use vstd::slice::slice_index_get;

use crate::frame::describe_frame;
use crate::frame::format_frame;
use crate::frame::StackFrame;
use crate::source_line::format_maybe_source_line;
use crate::source_line::opt_str_view;
use crate::source_line::source_line_fragment;
use crate::text::indent_spaces;
use crate::text::spaces;

verus! {

/// The report line for one frame: a newline, the indentation, `    at ` and
/// the frame's description.
pub open spec fn frame_line(f: StackFrame, level: nat) -> Seq<char> {
    "\n"@ + spaces(level) + "    at "@ + describe_frame(f)
}

/// The report lines of a frame list, in the given order.
pub open spec fn frames_text(frames: Seq<StackFrame>, level: nat) -> Seq<char>
    decreases frames.len(),
{
    if frames.len() == 0 {
        Seq::<char>::empty()
    } else {
        frames_text(frames.drop_last(), level) + frame_line(frames.last(), level)
    }
}

/// The column to highlight: the indexed frame's column number when the
/// index is present and in range, else nothing.
pub open spec fn column_for_indicator(frames: Seq<StackFrame>, idx: Option<usize>) -> Option<
    i64,
> {
    match idx {
        Some(i) => if (i as int) < frames.len() {
            frames[i as int].column_number
        } else {
            None
        },
        None => None,
    }
}

/// The full report text at one indentation level: the indented message
/// line, the source-line fragment for the indexed frame's column, one line
/// per frame, and the pre-rendered cause after a `Caused by: ` label.
pub open spec fn stack_text(
    is_error: bool,
    message_line: Seq<char>,
    cause: Option<Seq<char>>,
    source_line: Option<Seq<char>>,
    source_line_frame_index: Option<usize>,
    frames: Seq<StackFrame>,
    level: nat,
) -> Seq<char> {
    spaces(level) + message_line + source_line_fragment(
        source_line,
        column_for_indicator(frames, source_line_frame_index),
        is_error,
        level,
    ) + frames_text(frames, level) + match cause {
        Some(c) => "\n"@ + spaces(level) + "Caused by: "@ + c,
        None => Seq::<char>::empty(),
    }
}

/// Composes one report: message line, optional source indicator, frames in
/// the given order, and an optional pre-rendered cause.
pub fn format_stack(
    is_error: bool,
    message_line: &str,
    cause: Option<&str>,
    source_line: Option<&str>,
    source_line_frame_index: Option<usize>,
    frames: &[StackFrame],
    level: usize,
) -> (r: String)
    ensures
        r@ == stack_text(
            is_error,
            message_line@,
            opt_str_view(cause),
            opt_str_view(source_line),
            source_line_frame_index,
            frames@,
            level as nat,
        ),
{
    let indent = indent_spaces(level);
    let mut s = indent_spaces(level);
    s.append(message_line);
    let column_number: Option<i64> = match source_line_frame_index {
        Some(i) => if i < frames.len() {
            slice_index_get(frames, i).column_number
        } else {
            None
        },
        None => None,
    };
    proof {
        assert(column_number == column_for_indicator(frames@, source_line_frame_index));
    }
    s.append(format_maybe_source_line(source_line, column_number, is_error, level).as_str());
    let ghost header: Seq<char> = s@;
    let mut fi: usize = 0;
    while fi < frames.len()
        invariant
            fi <= frames@.len(),
            indent@ == spaces(level as nat),
            s@ == header + frames_text(frames@.take(fi as int), level as nat),
        decreases frames@.len() - fi,
    {
        s.append("\n");
        s.append(indent.as_str());
        s.append("    at ");
        s.append(format_frame(slice_index_get(frames, fi)).as_str());
        proof {
            assert(frames@.take(fi + 1).drop_last() =~= frames@.take(fi as int));
            assert(frames@.take(fi + 1).last() == frames@[fi as int]);
            assert(s@ =~= header + frames_text(frames@.take(fi + 1), level as nat));
        }
        fi = fi + 1;
    }
    proof {
        assert(frames@.take(frames@.len() as int) =~= frames@);
    }
    match cause {
        Some(c) => {
            s.append("\n");
            s.append(indent.as_str());
            s.append("Caused by: ");
            s.append(c);
        },
        None => {},
    }
    proof {
        assert(s@ =~= stack_text(
            is_error,
            message_line@,
            opt_str_view(cause),
            opt_str_view(source_line),
            source_line_frame_index,
            frames@,
            level as nat,
        ));
    }
    s
}

/// The top-level error to render: the message, the outermost-first call
/// stack, the optional failing source text with the frame whose column
/// applies to it, and an optional chained cause.
pub struct ExceptionReport {
    pub exception_message: String,
    pub frames: Vec<StackFrame>,
    pub source_line: Option<String>,
    pub source_line_frame_index: Option<usize>,
    pub cause: Option<Box<ExceptionReport>>,
}

/// The full rendered report of an exception, its causes rendered
/// recursively at the same indentation level under `Caused by: ` labels.
pub open spec fn report_text(e: ExceptionReport, is_error: bool, level: nat) -> Seq<char>
    decreases e,
{
    stack_text(
        is_error,
        e.exception_message@,
        match e.cause {
            Some(c) => Some(report_text(*c, is_error, level)),
            None => None,
        },
        match e.source_line {
            Some(s) => Some(s@),
            None => None,
        },
        e.source_line_frame_index,
        e.frames@,
        level,
    )
}

fn render_report(e: &ExceptionReport, is_error: bool, level: usize) -> (r: String)
    ensures
        r@ == report_text(*e, is_error, level as nat),
    decreases *e,
{
    let cause_string: Option<String> = match &e.cause {
        Some(c) => Some(render_report(&**c, is_error, level)),
        None => None,
    };
    let cause_ref: Option<&str> = match &cause_string {
        Some(cs) => Some(cs.as_str()),
        None => None,
    };
    let source_ref: Option<&str> = match &e.source_line {
        Some(sl) => Some(sl.as_str()),
        None => None,
    };
    format_stack(
        is_error,
        e.exception_message.as_str(),
        cause_ref,
        source_ref,
        e.source_line_frame_index,
        e.frames.as_slice(),
        level,
    )
}

/// Renders the whole report for an exception, error-styled, at the
/// outermost indentation level.
pub fn format_js_error(e: &ExceptionReport) -> (r: String)
    ensures
        r@ == report_text(*e, true, 0),
{
    render_report(e, true, 0)
}

} // verus!
