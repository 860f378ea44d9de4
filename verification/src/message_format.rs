//! Framing of a user's instruction and its attachments into one message.

use vstd::prelude::*;

verus! {

broadcast use vstd::string::group_string_axioms;

/// The framed message: the attachments (as JSON text), when there are any,
/// in an `ADDITIONAL_CONTEXT` block, then the instruction in a `MAIN_TASK`
/// block.
pub open spec fn framed_message(content: Seq<char>, attachments_json: Option<Seq<char>>) -> Seq<char> {
    match attachments_json {
        Some(j) => "<ADDITIONAL_CONTEXT>\n"@ + j + "\n</ADDITIONAL_CONTEXT>\n\n<MAIN_TASK>\n"@ + content + "\n</MAIN_TASK>"@,
        None => "<MAIN_TASK>\n"@ + content + "\n</MAIN_TASK>"@,
    }
}

/// Frames `content` and the serialized attachments, if any.
pub fn format_message_with_attachments(content: &str, attachments_json: Option<&str>) -> (r: String)
    ensures
        r@ == framed_message(content@, match attachments_json {
            Some(j) => Some(j@),
            None => None,
        }),
{
    match attachments_json {
        Some(j) => {
            let mut out = String::from_str("<ADDITIONAL_CONTEXT>\n");
            out.append(j);
            out.append("\n</ADDITIONAL_CONTEXT>\n\n<MAIN_TASK>\n");
            out.append(content);
            out.append("\n</MAIN_TASK>");
            out
        },
        None => {
            let mut out = String::from_str("<MAIN_TASK>\n");
            out.append(content);
            out.append("\n</MAIN_TASK>");
            out
        },
    }
}

} // verus!
