//! A single call-site record and the rendering of its location ("where")
//! and its description ("what").

use vstd::prelude::*;

use crate::abbrev::abbrev_file_name;
use crate::abbrev::format_file_name;
use crate::colors::cyan;
use crate::colors::cyan_of;
use crate::colors::italic_bold;
use crate::colors::italic_bold_of;
use crate::colors::yellow;
use crate::colors::yellow_of;
use crate::text::dec_int;
use crate::text::i64_to_dec;
use crate::text::seq_ends_with;
use crate::text::seq_starts_with;
use crate::text::str_ends_with;
use crate::text::str_starts_with;

verus! {

/// One entry in a call stack. Every field is optional or a flag; rendering
/// degrades gracefully whatever combination is present.
pub struct StackFrame {
    pub class_name: Option<String>,
    pub function_name: Option<String>,
    pub method_name: Option<String>,
    pub file_name: Option<String>,
    pub line_number: Option<i64>,
    pub column_number: Option<i64>,
    pub is_native: bool,
    pub is_constructor: bool,
    pub is_async: bool,
    pub is_promise_all: bool,
    pub promise_index: Option<i64>,
    pub is_top_level: Option<bool>,
    pub is_eval: bool,
    pub eval_origin: Option<String>,
}

impl Default for StackFrame {
    /// A frame with every optional field absent and every flag off.
    fn default() -> (r: Self)
        ensures
            r.class_name is None,
            r.function_name is None,
            r.method_name is None,
            r.file_name is None,
            r.line_number is None,
            r.column_number is None,
            !r.is_native,
            !r.is_constructor,
            !r.is_async,
            !r.is_promise_all,
            r.promise_index is None,
            r.is_top_level is None,
            !r.is_eval,
            r.eval_origin is None,
    {
        StackFrame {
            class_name: None,
            function_name: None,
            method_name: None,
            file_name: None,
            line_number: None,
            column_number: None,
            is_native: false,
            is_constructor: false,
            is_async: false,
            is_promise_all: false,
            promise_index: None,
            is_top_level: None,
            is_eval: false,
            eval_origin: None,
        }
    }
}

/// The `:line` and `:line:column` suffix of a location: present only when
/// the line number is, the column only together with the line.
pub open spec fn line_col_suffix(line_number: Option<i64>, column_number: Option<i64>) -> Seq<
    char,
> {
    match line_number {
        None => Seq::<char>::empty(),
        Some(l) => ":"@ + yellow_of(dec_int(l as int)) + match column_number {
            None => Seq::<char>::empty(),
            Some(c) => ":"@ + yellow_of(dec_int(c as int)),
        },
    }
}

/// A frame's rendered location: `native` for native frames; else the
/// abbreviated file name, or the eval origin, or `<anonymous>`, followed by
/// the line and column suffix.
pub open spec fn location_of(f: StackFrame) -> Seq<char> {
    if f.is_native {
        cyan_of("native"@)
    } else {
        (match f.file_name {
            Some(name) => cyan_of(abbrev_file_name(name@)),
            None => (if f.is_eval {
                match f.eval_origin {
                    Some(origin) => cyan_of(origin@) + ", "@,
                    None => Seq::<char>::empty(),
                }
            } else {
                Seq::<char>::empty()
            }) + cyan_of("<anonymous>"@),
        }) + line_col_suffix(f.line_number, f.column_number)
    }
}

/// Renders a frame's location string; never fails, whichever optional
/// fields are absent, and is never empty.
pub fn format_location(frame: &StackFrame) -> (r: String)
    ensures
        r@ == location_of(*frame),
        r@.len() > 0,
{
    if frame.is_native {
        proof {
            reveal_strlit("\u{1b}[36m");
        }
        return cyan("native");
    }
    let mut result = String::new();
    match &frame.file_name {
        Some(name) => {
            let abbreviated = format_file_name(name.as_str());
            result.append(cyan(abbreviated.as_str()).as_str());
        },
        None => {
            if frame.is_eval {
                match &frame.eval_origin {
                    Some(origin) => {
                        result.append(cyan(origin.as_str()).as_str());
                        result.append(", ");
                    },
                    None => {},
                }
            }
            result.append(cyan("<anonymous>").as_str());
        },
    }
    match frame.line_number {
        Some(l) => {
            result.append(":");
            result.append(yellow(i64_to_dec(l).as_str()).as_str());
            match frame.column_number {
                Some(c) => {
                    result.append(":");
                    result.append(yellow(i64_to_dec(c).as_str()).as_str());
                },
                None => {},
            }
        },
        None => {},
    }
    proof {
        reveal_strlit("\u{1b}[36m");
        assert(result@ =~= location_of(*frame));
    }
    result
}

/// The name part of a method-call frame: an optional `Type.` prefix (only
/// when the function name does not already start with it), the function
/// name, and an optional ` [as method]` suffix (only when the function name
/// does not already end with the method name); without a function name, the
/// `Type.` prefix and the method name or `<anonymous>`.
pub open spec fn method_call_text(f: StackFrame) -> Seq<char> {
    match f.function_name {
        Some(function_name) => (match f.class_name {
            Some(class_name) => if !seq_starts_with(function_name@, class_name@) {
                class_name@ + "."@
            } else {
                Seq::<char>::empty()
            },
            None => Seq::<char>::empty(),
        }) + function_name@ + (match f.method_name {
            Some(method_name) => if !seq_ends_with(function_name@, method_name@) {
                " [as "@ + method_name@ + "]"@
            } else {
                Seq::<char>::empty()
            },
            None => Seq::<char>::empty(),
        }),
        None => (match f.class_name {
            Some(class_name) => class_name@ + "."@,
            None => Seq::<char>::empty(),
        }) + (match f.method_name {
            Some(method_name) => method_name@,
            None => "<anonymous>"@,
        }),
    }
}

/// A frame's full one-line description: an `async ` prefix when the frame
/// is async; `Promise.all (index n)` for promise-combinator frames (with no
/// location suffix); otherwise the method, constructor or function name
/// followed by the location in parentheses, or the bare location when no
/// name is available.
pub open spec fn describe_frame(f: StackFrame) -> Seq<char> {
    let prefix = if f.is_async {
        "async "@
    } else {
        Seq::<char>::empty()
    };
    if f.is_promise_all {
        prefix + italic_bold_of(
            "Promise.all (index "@ + dec_int(
                match f.promise_index {
                    Some(i) => i as int,
                    None => 0,
                },
            ) + ")"@,
        )
    } else {
        let is_method_call = !(match f.is_top_level {
            Some(b) => b,
            None => false,
        } || f.is_constructor);
        if is_method_call {
            prefix + italic_bold_of(method_call_text(f)) + " ("@ + location_of(f) + ")"@
        } else if f.is_constructor {
            prefix + "new "@ + (match f.function_name {
                Some(name) => italic_bold_of(name@),
                None => cyan_of("<anonymous>"@),
            }) + " ("@ + location_of(f) + ")"@
        } else {
            match f.function_name {
                Some(name) => prefix + italic_bold_of(name@) + " ("@ + location_of(f) + ")"@,
                None => prefix + location_of(f),
            }
        }
    }
}

/// Renders one line describing a call frame, to be assembled under an
/// `at ` prefix; never fails, whichever optional fields are absent.
pub fn format_frame(frame: &StackFrame) -> (r: String)
    ensures
        r@ == describe_frame(*frame),
{
    let is_method_call = !(match frame.is_top_level {
        Some(b) => b,
        None => false,
    } || frame.is_constructor);
    let mut result = String::new();
    if frame.is_async {
        result.append("async ");
    }
    if frame.is_promise_all {
        let mut promise_text = String::from_str("Promise.all (index ");
        let index = match frame.promise_index {
            Some(i) => i,
            None => 0,
        };
        promise_text.append(i64_to_dec(index).as_str());
        promise_text.append(")");
        proof {
            assert(promise_text@ =~= "Promise.all (index "@ + dec_int(
                match frame.promise_index {
                    Some(i) => i as int,
                    None => 0,
                },
            ) + ")"@);
        }
        result.append(italic_bold(promise_text.as_str()).as_str());
        proof {
            assert(result@ =~= describe_frame(*frame));
        }
        return result;
    }
    if is_method_call {
        let mut formatted_method = String::new();
        match &frame.function_name {
            Some(function_name) => {
                match &frame.class_name {
                    Some(class_name) => {
                        if !str_starts_with(function_name.as_str(), class_name.as_str()) {
                            formatted_method.append(class_name.as_str());
                            formatted_method.append(".");
                        }
                    },
                    None => {},
                }
                formatted_method.append(function_name.as_str());
                match &frame.method_name {
                    Some(method_name) => {
                        if !str_ends_with(function_name.as_str(), method_name.as_str()) {
                            formatted_method.append(" [as ");
                            formatted_method.append(method_name.as_str());
                            formatted_method.append("]");
                        }
                    },
                    None => {},
                }
            },
            None => {
                match &frame.class_name {
                    Some(class_name) => {
                        formatted_method.append(class_name.as_str());
                        formatted_method.append(".");
                    },
                    None => {},
                }
                match &frame.method_name {
                    Some(method_name) => formatted_method.append(method_name.as_str()),
                    None => formatted_method.append("<anonymous>"),
                }
            },
        }
        proof {
            assert(formatted_method@ =~= method_call_text(*frame));
        }
        result.append(italic_bold(formatted_method.as_str()).as_str());
    } else if frame.is_constructor {
        result.append("new ");
        match &frame.function_name {
            Some(function_name) => result.append(italic_bold(function_name.as_str()).as_str()),
            None => result.append(cyan("<anonymous>").as_str()),
        }
    } else {
        match &frame.function_name {
            Some(function_name) => result.append(italic_bold(function_name.as_str()).as_str()),
            None => {
                result.append(format_location(frame).as_str());
                proof {
                    assert(result@ =~= describe_frame(*frame));
                }
                return result;
            },
        }
    }
    result.append(" (");
    result.append(format_location(frame).as_str());
    result.append(")");
    proof {
        assert(result@ =~= describe_frame(*frame));
    }
    result
}

} // verus!
