use fmt_errors::format_file_name;
use fmt_errors::format_frame;
use fmt_errors::format_location;
use fmt_errors::format_maybe_source_line;
use fmt_errors::StackFrame;

fn strip_ansi_codes(s: &str) -> String {
    let mut out = String::new();
    let mut in_escape = false;
    for c in s.chars() {
        if in_escape {
            if c == 'm' {
                in_escape = false;
            }
        } else if c == '\u{1b}' {
            in_escape = true;
        } else {
            out.push(c);
        }
    }
    out
}

#[test]
fn test_format_none_source_line() {
    let actual = format_maybe_source_line(None, None, false, 0);
    assert_eq!(actual, "");
}

#[test]
fn test_format_some_source_line() {
    let actual = format_maybe_source_line(Some("console.log('foo');"), Some(9), true, 0);
    assert_eq!(strip_ansi_codes(&actual), "\nconsole.log(\'foo\');\n        ^");
}

#[test]
fn test_format_missing_column_source_line() {
    let actual = format_maybe_source_line(Some("console.log('foo');"), None, true, 0);
    assert_eq!(actual, "");
}

#[test]
fn test_format_empty_source_line() {
    let actual = format_maybe_source_line(Some(""), Some(1), true, 0);
    assert_eq!(actual, "");
}

#[test]
fn test_format_oversized_source_line() {
    let long_line = "x".repeat(151);
    let actual = format_maybe_source_line(Some(&long_line), Some(1), true, 0);
    assert_eq!(actual, "");
}

#[test]
fn test_format_source_line_at_threshold() {
    let line = "y".repeat(150);
    let actual = format_maybe_source_line(Some(&line), Some(1), true, 0);
    assert_eq!(strip_ansi_codes(&actual), format!("\n{}\n^", line));
}

#[test]
fn test_format_source_line_column_out_of_bounds() {
    let actual = format_maybe_source_line(Some("abc"), Some(10), true, 0);
    assert_eq!(
        strip_ansi_codes(&actual),
        "\nWarning Couldn't format source line: Column 10 is out of bounds (source may have changed at runtime)"
    );
}

#[test]
fn test_format_source_line_negative_column() {
    let actual = format_maybe_source_line(Some("abc"), Some(-5), true, 0);
    assert_eq!(
        strip_ansi_codes(&actual),
        "\nWarning Couldn't format source line: Column -5 is out of bounds (source may have changed at runtime)"
    );
}

#[test]
fn test_format_source_line_diagnostic_passthrough() {
    let line = "Couldn't format source line: something went wrong";
    let actual = format_maybe_source_line(Some(line), Some(999), true, 0);
    assert_eq!(actual, format!("\n{}", line));
}

#[test]
fn test_format_source_line_preserves_tabs() {
    let actual = format_maybe_source_line(Some("\ta\tbc"), Some(4), false, 0);
    assert_eq!(strip_ansi_codes(&actual), "\n\ta\tbc\n\t \t^");
}

#[test]
fn test_format_source_line_indentation() {
    let actual = format_maybe_source_line(Some("boom();"), Some(1), true, 2);
    assert_eq!(strip_ansi_codes(&actual), "\n  boom();\n  ^");
}

#[test]
fn test_format_source_line_multibyte_column() {
    // Columns count characters, not bytes: for a two-character line of
    // multi-byte characters, column 2 is still in bounds.
    let actual = format_maybe_source_line(Some("éé"), Some(2), true, 0);
    assert_eq!(strip_ansi_codes(&actual), "\néé\n ^");
}

#[test]
fn test_format_file_name_short_unchanged() {
    assert_eq!(format_file_name("file:///foo/bar.ts"), "file:///foo/bar.ts");
}

#[test]
fn test_format_file_name_abbreviates_long_data_url() {
    let input = format!("data:text/plain,{}{}{}", "A".repeat(20), "x".repeat(100), "Z".repeat(20));
    assert!(input.len() > 150);
    assert_eq!(
        format_file_name(&input),
        format!("data:text/plain,{}......{}", "A".repeat(20), "Z".repeat(20))
    );
}

#[test]
fn test_format_file_name_long_non_url_unchanged() {
    let input = "a".repeat(200);
    assert_eq!(format_file_name(&input), input);
}

#[test]
fn test_format_file_name_long_non_data_url_unchanged() {
    let input = format!("https://example.com/{}", "a".repeat(160));
    assert_eq!(format_file_name(&input), input);
}

#[test]
fn test_format_file_name_short_payload_unchanged() {
    // The path has a comma but the payload after it is shorter than 40
    // characters, so nothing is abbreviated.
    let input = format!("data:{},{}", "m".repeat(160), "p".repeat(30));
    assert_eq!(format_file_name(&input), input);
}

#[test]
fn test_format_file_name_applied_twice() {
    let input = format!("data:text/plain,{}{}{}", "A".repeat(20), "x".repeat(100), "Z".repeat(20));
    let once = format_file_name(&input);
    assert_eq!(format_file_name(&once), once);
}

#[test]
fn test_format_location_native() {
    let frame = StackFrame { is_native: true, ..Default::default() };
    assert_eq!(strip_ansi_codes(&format_location(&frame)), "native");
}

#[test]
fn test_format_location_file_line_column() {
    let frame = StackFrame {
        file_name: Some("x.js".to_string()),
        line_number: Some(12),
        column_number: Some(34),
        ..Default::default()
    };
    assert_eq!(strip_ansi_codes(&format_location(&frame)), "x.js:12:34");
}

#[test]
fn test_format_location_anonymous() {
    let frame = StackFrame::default();
    assert_eq!(strip_ansi_codes(&format_location(&frame)), "<anonymous>");
}

#[test]
fn test_format_location_eval_origin() {
    let frame = StackFrame {
        is_eval: true,
        eval_origin: Some("eval at foo (file:///a.js:1:1)".to_string()),
        line_number: Some(2),
        ..Default::default()
    };
    assert_eq!(
        strip_ansi_codes(&format_location(&frame)),
        "eval at foo (file:///a.js:1:1), <anonymous>:2"
    );
}

#[test]
fn test_format_location_negative_line() {
    let frame = StackFrame {
        file_name: Some("x.js".to_string()),
        line_number: Some(-7),
        ..Default::default()
    };
    assert_eq!(strip_ansi_codes(&format_location(&frame)), "x.js:-7");
}

#[test]
fn test_format_frame_top_level_function() {
    let frame = StackFrame {
        function_name: Some("foo".to_string()),
        is_top_level: Some(true),
        file_name: Some("x.js".to_string()),
        line_number: Some(1),
        column_number: Some(1),
        ..Default::default()
    };
    assert_eq!(strip_ansi_codes(&format_frame(&frame)), "foo (x.js:1:1)");
}

#[test]
fn test_format_frame_promise_all() {
    let frame =
        StackFrame { is_promise_all: true, promise_index: Some(2), ..Default::default() };
    assert_eq!(strip_ansi_codes(&format_frame(&frame)), "Promise.all (index 2)");
}

#[test]
fn test_format_frame_promise_all_default_index() {
    let frame = StackFrame { is_promise_all: true, ..Default::default() };
    assert_eq!(strip_ansi_codes(&format_frame(&frame)), "Promise.all (index 0)");
}

#[test]
fn test_format_frame_method_call() {
    let frame = StackFrame {
        class_name: Some("Foo".to_string()),
        function_name: Some("bar".to_string()),
        method_name: Some("baz".to_string()),
        file_name: Some("x.js".to_string()),
        ..Default::default()
    };
    assert_eq!(strip_ansi_codes(&format_frame(&frame)), "Foo.bar [as baz] (x.js)");
}

#[test]
fn test_format_frame_method_call_no_redundant_parts() {
    // The class prefix is dropped when the function name already starts
    // with it, and the alias suffix when it already ends with the method.
    let frame = StackFrame {
        class_name: Some("Foo".to_string()),
        function_name: Some("Foo.baz".to_string()),
        method_name: Some("baz".to_string()),
        file_name: Some("x.js".to_string()),
        ..Default::default()
    };
    assert_eq!(strip_ansi_codes(&format_frame(&frame)), "Foo.baz (x.js)");
}

#[test]
fn test_format_frame_method_without_function_name() {
    let frame = StackFrame {
        class_name: Some("Foo".to_string()),
        method_name: Some("bar".to_string()),
        file_name: Some("x.js".to_string()),
        ..Default::default()
    };
    assert_eq!(strip_ansi_codes(&format_frame(&frame)), "Foo.bar (x.js)");
}

#[test]
fn test_format_frame_anonymous_method() {
    let frame = StackFrame { file_name: Some("x.js".to_string()), ..Default::default() };
    assert_eq!(strip_ansi_codes(&format_frame(&frame)), "<anonymous> (x.js)");
}

#[test]
fn test_format_frame_constructor() {
    let frame = StackFrame {
        is_constructor: true,
        function_name: Some("Foo".to_string()),
        file_name: Some("x.js".to_string()),
        ..Default::default()
    };
    assert_eq!(strip_ansi_codes(&format_frame(&frame)), "new Foo (x.js)");
}

#[test]
fn test_format_frame_anonymous_constructor() {
    let frame = StackFrame {
        is_constructor: true,
        file_name: Some("x.js".to_string()),
        ..Default::default()
    };
    assert_eq!(strip_ansi_codes(&format_frame(&frame)), "new <anonymous> (x.js)");
}

#[test]
fn test_format_frame_async_prefix() {
    let frame = StackFrame {
        is_async: true,
        function_name: Some("foo".to_string()),
        is_top_level: Some(true),
        file_name: Some("x.js".to_string()),
        ..Default::default()
    };
    assert_eq!(strip_ansi_codes(&format_frame(&frame)), "async foo (x.js)");
}

#[test]
fn test_format_frame_no_name_is_bare_location() {
    let frame = StackFrame { is_top_level: Some(true), is_native: true, ..Default::default() };
    assert_eq!(strip_ansi_codes(&format_frame(&frame)), "native");
}
