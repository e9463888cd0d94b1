//! Decisions taken while reading the service's configuration.

use vstd::prelude::*;
use vstd::string::*;
use base64::Engine;
use crate::error::Error;
use crate::text::push_char;
use crate::github::opt_bytes_view;

verus! {

/// Dry-run mode is on when its variable is set to a non-empty value.
pub fn dry_run_enabled(value: Option<&str>) -> (r: bool)
    ensures
        r == (value matches Some(v) && v@.len() > 0),
{
    match value {
        Some(v) => !v.is_empty(),
        None => false,
    }
}

/// A base path that ends in `/`, so that relative resource paths can be
/// joined to it: `path` itself when it ends in `/`, else `path` and a `/`.
pub fn normalize_base_path(path: &str) -> (r: String)
    ensures
        path@.len() > 0 && path@.last() == '/' ==> r@ == path@,
        !(path@.len() > 0 && path@.last() == '/') ==> r@ == path@.push('/'),
{
    let n = path.unicode_len();
    let mut r = path.to_owned();
    if n > 0 && path.get_char(n - 1) == '/' {
        r
    } else {
        push_char(&mut r, '/');
        r
    }
}

/// The bytes that a text in standard padded base64 stands for, or none when
/// it is not such a text.
pub uninterp spec fn base64_decoded(text: Seq<u8>) -> Option<Seq<u8>>;

/// Relies on `base64::engine::general_purpose::STANDARD.decode`.
#[verifier::external_body]
fn base64_decode(text: &[u8]) -> (r: Option<Vec<u8>>)
    ensures
        opt_bytes_view(r) == base64_decoded(text@),
{
    base64::engine::general_purpose::STANDARD.decode(text).ok()
}

/// The ciphertext held, in base64, by the variable `var_name` with the given
/// value; a value that is not base64 is refused with `EnvVarBadValue`.
pub fn decode_encrypted_value(var_name: &str, value: &str) -> (r: Result<Vec<u8>, Error>)
    ensures
        match base64_decoded(value.spec_bytes()) {
            Some(b) => r matches Ok(v) && v@ == b,
            None => r matches Err(Error::EnvVarBadValue { env_var_name }) && env_var_name@
                == var_name@,
        },
{
    match base64_decode(value.as_bytes()) {
        Some(b) => Ok(b),
        None => Err(Error::EnvVarBadValue { env_var_name: var_name.to_owned() }),
    }
}

} // verus!
