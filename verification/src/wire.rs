//! The wire format of progress notifications: one externally tagged JSON
//! object per phase, framed character by character so that the exact
//! message text is pinned down. File names are sanitized before they reach
//! a phase, so they never contain a quote, a backslash or a control
//! character and need no escaping.
use vstd::prelude::*;

use crate::phase::Phase;
use crate::text::decimal_of;
use crate::text::usize_to_string;

verus! {

/// The exact message text for a phase: the variant name tags an object
/// holding the file name and, while downloading, the byte counts.
pub open spec fn phase_message_of(p: Phase) -> Seq<char> {
    match p {
        Phase::Downloading { file_name, downloaded_bytes, total_bytes } =>
            "{\"Downloading\":{\"file_name\":\""@ + file_name@ + "\",\"downloaded_bytes\":"@
            + decimal_of(downloaded_bytes as nat) + ",\"total_bytes\":"@ + decimal_of(
            total_bytes as nat,
        ) + "}}"@,
        Phase::Encoding { file_name } => "{\"Encoding\":{\"file_name\":\""@ + file_name@ + "\"}}"@,
        Phase::Writing { file_name } => "{\"Writing\":{\"file_name\":\""@ + file_name@ + "\"}}"@,
        Phase::Downloaded { file_name } => "{\"Downloaded\":{\"file_name\":\""@ + file_name@
            + "\"}}"@,
    }
}

/// Serializes a phase to its wire message.
pub fn phase_message(p: &Phase) -> (msg: String)
    ensures
        msg@ == phase_message_of(*p),
{
    match p {
        Phase::Downloading { file_name, downloaded_bytes, total_bytes } => {
            let mut msg = String::new();
            msg.append("{\"Downloading\":{\"file_name\":\"");
            msg.append(file_name.as_str());
            msg.append("\",\"downloaded_bytes\":");
            let down = usize_to_string(*downloaded_bytes);
            msg.append(down.as_str());
            msg.append(",\"total_bytes\":");
            let total = usize_to_string(*total_bytes);
            msg.append(total.as_str());
            msg.append("}}");
            msg
        },
        Phase::Encoding { file_name } => {
            let mut msg = String::new();
            msg.append("{\"Encoding\":{\"file_name\":\"");
            msg.append(file_name.as_str());
            msg.append("\"}}");
            msg
        },
        Phase::Writing { file_name } => {
            let mut msg = String::new();
            msg.append("{\"Writing\":{\"file_name\":\"");
            msg.append(file_name.as_str());
            msg.append("\"}}");
            msg
        },
        Phase::Downloaded { file_name } => {
            let mut msg = String::new();
            msg.append("{\"Downloaded\":{\"file_name\":\"");
            msg.append(file_name.as_str());
            msg.append("\"}}");
            msg
        },
    }
}

} // verus!
