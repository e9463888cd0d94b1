//! What the library decides for the issue tracker: the authorization header,
//! resource paths, and the new checklist to write for a pull request.

use vstd::prelude::*;
use vstd::string::*;
use vstd::utf8::encode_utf8;
use base64::Engine;
use crate::checklist::{ChecklistManipulator, pushed, parse_lines, join_lines};
use crate::document::{ContentNode, flatten, is_paragraph_doc};
use crate::text::push_char;

verus! {

/// Path of the issue resource, relative to the tracker's base URL.
pub const ISSUE_RESOURCE: &'static str = "rest/api/3/issue/";

/// Query that asks for the checklist field alone.
pub const CHECKLIST_FIELD_QUERY: &'static str = "?fields=customfield_10369";

/// The standard padded base64 text of `bytes`.
pub uninterp spec fn base64_text(bytes: Seq<u8>) -> Seq<char>;

/// Relies on `base64::engine::general_purpose::STANDARD.encode`.
#[verifier::external_body]
fn base64_encode(bytes: &[u8]) -> (r: String)
    ensures
        r@ == base64_text(bytes@),
{
    base64::engine::general_purpose::STANDARD.encode(bytes)
}

/// The value of a basic authorization header: `Basic ` and the base64 of
/// `email:token`.
pub open spec fn basic_auth(email: Seq<char>, token: Seq<char>) -> Seq<char> {
    seq!['B', 'a', 's', 'i', 'c', ' '] + base64_text(encode_utf8(email + seq![':'] + token))
}

/// The authorization header value for the tracker's account.
pub fn basic_auth_value(email: &str, token: &str) -> (r: String)
    ensures
        r@ == basic_auth(email@, token@),
{
    let mut credentials = email.to_owned();
    push_char(&mut credentials, ':');
    credentials.append(token);
    assert(credentials@ =~= email@ + seq![':'] + token@);
    let cs = credentials.as_str();
    let bytes = cs.as_bytes();
    assert(bytes@ == encode_utf8(email@ + seq![':'] + token@));
    let encoded = base64_encode(bytes);
    let mut r = String::new();
    push_char(&mut r, 'B');
    push_char(&mut r, 'a');
    push_char(&mut r, 's');
    push_char(&mut r, 'i');
    push_char(&mut r, 'c');
    push_char(&mut r, ' ');
    r.append(encoded.as_str());
    assert(r@ =~= basic_auth(email@, token@));
    r
}

/// The path of an issue, for writing its fields.
pub fn issue_path(issue_key: &str) -> (r: String)
    ensures
        r@ == ISSUE_RESOURCE@ + issue_key@,
{
    let mut r = ISSUE_RESOURCE.to_owned();
    r.append(issue_key);
    r
}

/// The path of an issue, for reading its checklist field.
pub fn issue_checklist_path(issue_key: &str) -> (r: String)
    ensures
        r@ == ISSUE_RESOURCE@ + issue_key@ + CHECKLIST_FIELD_QUERY@,
{
    let mut r = issue_path(issue_key);
    r.append(CHECKLIST_FIELD_QUERY);
    r
}

/// The checklist text after upserting an open entry of `url` into the
/// document's pull-request section, or none when there is nothing to write:
/// the document has no text, no such section, or the section's entry of the
/// URL already is the open entry.
pub open spec fn checklist_after_push(doc: ContentNode, url: Seq<char>) -> Option<Seq<char>> {
    match flatten(doc) {
        None => None,
        Some(t) => {
            let (lines, changed) = pushed(parse_lines(t), url);
            if changed {
                Some(join_lines(lines))
            } else {
                None
            }
        },
    }
}

/// The checklist document to write back after a pull request at `html_url`
/// referenced the issue, or none when it need not be written.
pub fn checklist_update(checklist: &ContentNode, html_url: &str) -> (r: Option<ContentNode>)
    ensures
        match checklist_after_push(*checklist, html_url@) {
            Some(t) => r matches Some(d) && is_paragraph_doc(d, t),
            None => r is None,
        },
{
    let text = match checklist.text() {
        Some(t) => t,
        None => return None,
    };
    let mut lines = ChecklistManipulator::new(text.as_str());
    if !lines.push_pr(html_url) {
        return None;
    }
    Some(ContentNode::new_doc_paragraph_text(lines.to_string()))
}

} // verus!
