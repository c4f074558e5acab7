//! Assembly of the structured commit message: an emoji glyph taken from
//! the chosen menu label, a title line, a body line, and a labeled
//! breaking-changes line, separated by newlines.

use vstd::prelude::*;

use crate::errors::OpError;
use crate::text::{trim_spec, trim_text};

verus! {

/// The answers gathered from the interactive message flow: the chosen
/// menu label and the three free-text prompt answers, as entered.
#[derive(Debug)]
pub struct MessageInput {
    /// The label chosen from the emoji menu.
    pub label: String,
    /// The commit title line.
    pub title: String,
    /// The commit body line.
    pub body: String,
    /// The breaking-changes note.
    pub breaking: String,
}

/// The glyph kept from a chosen menu label: exactly its single leading
/// character; the rest of the label is discarded. An empty label keeps
/// nothing.
pub open spec fn glyph_spec(label: Seq<char>) -> Seq<char> {
    if label.len() == 0 {
        Seq::empty()
    } else {
        seq![label[0]]
    }
}

/// Returns the glyph of a chosen menu label.
pub fn glyph_of(label: &str) -> (g: String)
    ensures
        g@ == glyph_spec(label@),
{
    let len = label.unicode_len();
    if len == 0 {
        String::new()
    } else {
        let head = label.substring_char(0, 1);
        proof {
            assert(head@ =~= glyph_spec(label@));
        }
        String::from_str(head)
    }
}

/// The assembled message: glyph, trimmed title, newline, trimmed body,
/// newline, the labeled breaking-changes line, newline.
pub open spec fn message_spec(
    label: Seq<char>,
    title: Seq<char>,
    body: Seq<char>,
    breaking: Seq<char>,
) -> Seq<char> {
    glyph_spec(label) + trim_spec(title) + "\n"@ + trim_spec(body) + "\n"@
        + "BREAKING CHANGES: "@ + trim_spec(breaking) + "\n"@
}

/// Assembles the commit message from the interactive answers.
pub fn build_message(input: &MessageInput) -> (m: String)
    ensures
        m@ == message_spec(input.label@, input.title@, input.body@, input.breaking@),
{
    let mut m = glyph_of(input.label.as_str());
    let title = trim_text(input.title.as_str());
    m.append(title.as_str());
    m.append("\n");
    let body = trim_text(input.body.as_str());
    m.append(body.as_str());
    m.append("\n");
    m.append("BREAKING CHANGES: ");
    let breaking = trim_text(input.breaking.as_str());
    m.append(breaking.as_str());
    m.append("\n");
    m
}

/// The fixed placeholder message used in non-interactive mode.
pub open spec fn placeholder_spec() -> Seq<char> {
    "unit testing"@
}

/// Returns the fixed placeholder message.
pub fn placeholder_message() -> (m: String)
    ensures
        m@ == placeholder_spec(),
{
    String::from_str("unit testing")
}

/// Resolves the message for a commit. In non-interactive (`debug`) mode
/// the fixed placeholder is used and any gathered answers are ignored;
/// in interactive mode the message is assembled from the answers, and
/// an absent answer set — the operator cancelled the selection — is
/// surfaced as `SelectionAborted`.
pub fn resolve_message(debug: bool, input: Option<&MessageInput>) -> (m: Result<String, OpError>)
    ensures
        debug ==> (m matches Ok(t) && t@ == placeholder_spec()),
        !debug ==> match input {
            Some(mi) => m matches Ok(t)
                && t@ == message_spec(mi.label@, mi.title@, mi.body@, mi.breaking@),
            None => m == Err::<String, OpError>(OpError::SelectionAborted),
        },
{
    if debug {
        Ok(placeholder_message())
    } else {
        match input {
            Some(mi) => Ok(build_message(mi)),
            None => Err(OpError::SelectionAborted),
        }
    }
}

} // verus!
