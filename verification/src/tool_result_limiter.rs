//! Large tool results: kept on disk by the caller and replaced in the
//! conversation by a preview that says where the whole output is.
use vstd::prelude::*;

use crate::text::{byte_len, bytes_prefix, decimal, decimal_string, is_char_boundary, prefix_bytes, push_str, utf8_len};

verus! {

/// Default maximum bytes of a tool result kept inline.
pub const DEFAULT_MAX_RESULT_SIZE_CHARS: usize = 50000;

/// Bytes of the original output kept as a preview.
pub const PREVIEW_SIZE: usize = 2000;

/// The output of a tool.
#[derive(Debug, Clone)]
pub struct ToolOutput {
    pub content: String,
    pub is_error: bool,
}

/// Whether an output must be cut: it has more than `max_chars` bytes.
pub fn exceeds_limit(output: &ToolOutput, max_chars: usize) -> (b: bool)
    ensures
        b == (utf8_len(output.content@) > max_chars),
{
    byte_len(output.content.as_str()) > max_chars
}

/// The preview length: `PREVIEW_SIZE` bytes, or the whole output.
pub open spec fn preview_len(content: Seq<char>) -> int {
    if PREVIEW_SIZE < utf8_len(content) { PREVIEW_SIZE as int } else { utf8_len(content) as int }
}

/// The preview that stands for a long output: its first `PREVIEW_SIZE`
/// bytes, its length, and where the whole output was saved, if it was.
pub open spec fn spec_truncated(content: Seq<char>, persisted: Option<Seq<char>>) -> Seq<char> {
    bytes_prefix(content, preview_len(content)) + "\n\n... ("@ + decimal(utf8_len(content)) + " chars total, truncated)"@
        + match persisted {
        Some(p) => "\n\nFull output saved to: "@ + p + "\nUse file_read to access the complete output."@,
        None => seq![],
    }
}

/// Replace an output by its preview; the error flag is kept.
pub fn truncate_output(output: ToolOutput, max_chars: usize, persisted_path: Option<&str>) -> (r: ToolOutput)
    requires
        is_char_boundary(output.content@, preview_len(output.content@)),
    ensures
        r.is_error == output.is_error,
        r.content@ == spec_truncated(output.content@, match persisted_path { Some(p) => Some(p@), None => None }),
{
    let n = byte_len(output.content.as_str());
    let cut = if PREVIEW_SIZE < n { PREVIEW_SIZE } else { n };
    let mut content = prefix_bytes(output.content.as_str(), cut);
    push_str(&mut content, "\n\n... (");
    let d = decimal_string(n);
    push_str(&mut content, d.as_str());
    push_str(&mut content, " chars total, truncated)");
    match persisted_path {
        Some(p) => {
            push_str(&mut content, "\n\nFull output saved to: ");
            push_str(&mut content, p);
            push_str(&mut content, "\nUse file_read to access the complete output.");
        },
        None => {},
    }
    ToolOutput { content, is_error: output.is_error }
}

} // verus!
