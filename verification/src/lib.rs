//! Renders structured exception and stack-trace records into human-readable,
//! optionally colorized, multi-line diagnostic reports.

pub mod abbrev;
pub mod colors;
pub mod frame;
pub mod source_line;
pub mod stack;
pub mod text;

pub use abbrev::format_file_name;
pub use frame::format_frame;
pub use frame::format_location;
pub use frame::StackFrame;
pub use source_line::format_maybe_source_line;
pub use stack::format_js_error;
pub use stack::format_stack;
pub use stack::ExceptionReport;

use vstd::prelude::*;

verus! {

/// Length above which a source line is suppressed rather than shown.
pub const SOURCE_ABBREV_THRESHOLD: usize = 150;

/// Length above which a `data:` URL file name is abbreviated for display.
pub const DATA_URL_ABBREV_THRESHOLD: usize = 150;

} // verus!
