//! What the library reads from a pull-request webhook: the payload's fields,
//! the issue key in a title, and the delivery's signature.

use vstd::prelude::*;
use vstd::string::*;
use vstd::utf8::encode_utf8;
use hmac::Mac;
use crate::error::Error;
use crate::types::WebhookSecret;
use crate::document::opt_string_view;
use crate::text::{push_char, chars_of};

verus! {

/// The fields of a pull-request event that the library reads.
pub struct PullRequestPayload {
    pub action: String,
    pub pull_request: PullRequest,
    pub changes: Option<Changes>,
}

/// The pull request an event is about.
pub struct PullRequest {
    pub title: String,
    pub html_url: String,
    pub number: u64,
    pub state: String,
}

/// What an `edited` event changed.
pub struct Changes {
    pub title: Option<TitleChange>,
}

/// The title a pull request had before an edit.
pub struct TitleChange {
    pub from: String,
}

// ---------------------------------------------------------------------------
// Issue keys

/// An optional `[`, a run of ASCII letters, any run of `-` and spaces, and a
/// run of ASCII digits, at the start of a title.
pub const ISSUE_KEY_PATTERN: &'static str = r"^\[?([A-Za-z]+)[\- ]*([0-9]+)";

/// Capture groups 1 and 2 of the first match of the regular expression
/// `pattern` in `text`, or none when it does not match (or is no valid
/// expression, or a group takes no part in the match).
pub uninterp spec fn regex_groups(pattern: Seq<char>, text: Seq<char>) -> Option<
    (Seq<char>, Seq<char>),
>;

/// Relies on `regex::Regex::new` and `Regex::captures`: the first match of
/// `pattern` in `text`, groups 1 and 2.
#[verifier::external_body]
fn first_two_groups(pattern: &str, text: &str) -> (r: Option<(String, String)>)
    ensures
        match r {
            Some((a, b)) => regex_groups(pattern@, text@) == Some((a@, b@)),
            None => regex_groups(pattern@, text@) is None,
        },
{
    let re = match regex::Regex::new(pattern) {
        Ok(re) => re,
        Err(_) => return None,
    };
    let caps = re.captures(text)?;
    Some((caps.get(1)?.as_str().to_string(), caps.get(2)?.as_str().to_string()))
}

/// `c` with ASCII lower-case letters made upper case.
pub open spec fn upper_ascii(c: char) -> char {
    if 'a' <= c && c <= 'z' {
        (((c as u32) - 32) as u8) as char
    } else {
        c
    }
}

/// The issue key made of a prefix and a number: the prefix in upper case, a
/// hyphen, and the number.
pub open spec fn issue_key(prefix: Seq<char>, number: Seq<char>) -> Seq<char> {
    prefix.map_values(|c: char| upper_ascii(c)) + seq!['-'] + number
}

/// The issue key made of the prefix and number that a title's match gave.
pub fn issue_key_from_groups(prefix: &str, number: &str) -> (r: String)
    ensures
        r@ == issue_key(prefix@, number@),
{
    let p = chars_of(prefix);
    let mut out = String::new();
    let mut i: usize = 0;
    while i < p.len()
        invariant
            i <= p@.len(),
            p@ == prefix@,
            out@ == prefix@.subrange(0, i as int).map_values(|c: char| upper_ascii(c)),
        decreases p@.len() - i,
    {
        let c = p[i];
        let u = if 'a' <= c && c <= 'z' {
            (((c as u32) - 32) as u8) as char
        } else {
            c
        };
        push_char(&mut out, u);
        assert(prefix@.subrange(0, i + 1).map_values(|c: char| upper_ascii(c)) =~= prefix@.subrange(
            0,
            i as int,
        ).map_values(|c: char| upper_ascii(c)).push(upper_ascii(c)));
        i += 1;
    }
    assert(prefix@.subrange(0, p@.len() as int) =~= prefix@);
    push_char(&mut out, '-');
    out.append(number);
    assert(out@ =~= issue_key(prefix@, number@));
    out
}

/// The issue key that a title starts with, as `ISSUE_KEY_PATTERN` finds it.
pub open spec fn title_issue_key(title: Seq<char>) -> Option<Seq<char>> {
    match regex_groups(ISSUE_KEY_PATTERN@, title) {
        Some((p, n)) => Some(issue_key(p, n)),
        None => None,
    }
}

/// The issue key at the start of a pull request's title, in upper case
/// (`[Issue-51] ...` gives `ISSUE-51`), or none.
pub fn extract_issue_key(title: &str) -> (r: Option<String>)
    ensures
        opt_string_view(r) == title_issue_key(title@),
{
    match first_two_groups(ISSUE_KEY_PATTERN, title) {
        Some((p, n)) => Some(issue_key_from_groups(p.as_str(), n.as_str())),
        None => None,
    }
}

// ---------------------------------------------------------------------------
// Signatures

/// An ASCII hexadecimal digit.
pub open spec fn is_hex_digit(b: u8) -> bool {
    (48 <= b && b <= 57) || (65 <= b && b <= 70) || (97 <= b && b <= 102)
}

/// The value of an ASCII hexadecimal digit.
pub open spec fn hex_value(b: u8) -> int {
    if 48 <= b && b <= 57 {
        b - 48
    } else if 65 <= b && b <= 70 {
        b - 55
    } else {
        b - 87
    }
}

/// The bytes that a hexadecimal text stands for: two digits per byte, the
/// high half first; none when the length is odd or a byte is no digit.
pub open spec fn hex_decoded(d: Seq<u8>) -> Option<Seq<u8>> {
    if d.len() % 2 == 0 && forall|i: int| 0 <= i < d.len() ==> is_hex_digit(#[trigger] d[i]) {
        Some(Seq::new((d.len() / 2) as nat, |i: int| (hex_value(d[2 * i]) * 16 + hex_value(d[2 * i + 1])) as u8))
    } else {
        None
    }
}

/// The bytes of an optional byte vector.
pub open spec fn opt_bytes_view(r: Option<Vec<u8>>) -> Option<Seq<u8>> {
    match r {
        Some(v) => Some(v@),
        None => None,
    }
}

/// Relies on `hex::decode`, which reads two digits of either case per byte
/// and fails on an odd length or a byte that is no digit.
#[verifier::external_body]
fn hex_decode(data: &[u8]) -> (r: Option<Vec<u8>>)
    ensures
        opt_bytes_view(r) == hex_decoded(data@),
{
    hex::decode(data).ok()
}

/// The HMAC-SHA256 tag of `msg` under `key`.
pub uninterp spec fn hmac_sha256(key: Seq<u8>, msg: Seq<u8>) -> Seq<u8>;

/// Relies on `hmac::Hmac<sha2::Sha256>`: `new_from_slice` accepts a key of
/// any length (it never fails for HMAC), and `verify_slice` succeeds exactly
/// when `tag` is the whole tag of the message.
#[verifier::external_body]
fn hmac_sha256_matches(key: &[u8], msg: &[u8], tag: &[u8]) -> (r: bool)
    ensures
        r == (tag@ == hmac_sha256(key@, msg@)),
{
    match <hmac::Hmac<sha2::Sha256> as Mac>::new_from_slice(key) {
        Ok(mut mac) => {
            mac.update(msg);
            mac.verify_slice(tag).is_ok()
        },
        Err(_) => false,
    }
}

/// The bytes of `sha256=`, which starts a signature header.
pub open spec fn signature_prefix() -> Seq<u8> {
    seq![115u8, 104u8, 97u8, 50u8, 53u8, 54u8, 61u8]
}

/// A signature header that names the HMAC-SHA256 of the payload under the
/// secret, in hexadecimal after `sha256=`.
pub open spec fn signature_valid(header: Seq<u8>, payload: Seq<u8>, secret: Seq<u8>) -> bool {
    &&& header.len() >= 7
    &&& header.subrange(0, 7) == signature_prefix()
    &&& hex_decoded(header.subrange(7, header.len() as int)) == Some(hmac_sha256(secret, payload))
}

fn has_signature_prefix(b: &[u8]) -> (r: bool)
    ensures
        r == (b@.len() >= 7 && b@.subrange(0, 7) == signature_prefix()),
{
    if b.len() < 7 {
        return false;
    }
    let r = b[0] == 115u8 && b[1] == 104u8 && b[2] == 97u8 && b[3] == 50u8 && b[4] == 53u8 && b[5]
        == 54u8 && b[6] == 61u8;
    proof {
        let s = b@.subrange(0, 7);
        let q = signature_prefix();
        assert(s[0] == b@[0] && s[1] == b@[1] && s[2] == b@[2] && s[3] == b@[3] && s[4] == b@[4]
            && s[5] == b@[5] && s[6] == b@[6]);
        assert(q[0] == 115u8 && q[1] == 104u8 && q[2] == 97u8 && q[3] == 50u8 && q[4] == 53u8
            && q[5] == 54u8 && q[6] == 61u8);
        if r {
            assert(s =~= q);
        }
    }
    r
}

/// Checks a webhook delivery's signature header against its payload.
/// Without a header the delivery is refused with `MissingSignatureHeader`;
/// a header that does not hold the payload's HMAC-SHA256 under the secret
/// is refused with `InvalidWebhookSignature`.
pub fn validate_signature(payload: &[u8], signature_header: Option<&str>, secret: &WebhookSecret) -> (r:
    Result<(), Error>)
    ensures
        signature_header is None ==> r matches Err(Error::MissingSignatureHeader),
        signature_header matches Some(h) ==> {
            &&& r is Ok <==> signature_valid(encode_utf8(h@), payload@, secret@)
            &&& r is Err ==> r matches Err(Error::InvalidWebhookSignature)
        },
{
    let header = match signature_header {
        Some(h) => h,
        None => return Err(Error::MissingSignatureHeader),
    };
    let bytes = header.as_bytes();
    if !has_signature_prefix(bytes) {
        return Err(Error::InvalidWebhookSignature);
    }
    let digits = vstd::slice::slice_subrange(bytes, 7, bytes.len());
    match hex_decode(digits) {
        Some(tag) => {
            if hmac_sha256_matches(secret.as_bytes(), payload, tag.as_slice()) {
                Ok(())
            } else {
                Err(Error::InvalidWebhookSignature)
            }
        },
        None => Err(Error::InvalidWebhookSignature),
    }
}

} // verus!
