//! Small string and path utilities.

use vstd::prelude::*;
use vstd::string::StrSliceExecFns;
use vstd::string::StringExecFns;

use crate::errors::UtilError;

verus! {

/// What decoding a byte sequence as UTF-8 yields, when it is valid.
pub uninterp spec fn utf8_decoded(bytes: Seq<u8>) -> Option<Seq<char>>;

/// Relies on std's `str::from_utf8`: the bytes decode to the same
/// characters, or fail, as a function of the bytes alone.
#[verifier::external_body]
fn utf8_to_string(bytes: &[u8]) -> (r: Option<String>)
    ensures
        match r {
            Some(s) => utf8_decoded(bytes@) == Some(s@),
            None => utf8_decoded(bytes@) is None,
        },
{
    match std::str::from_utf8(bytes) {
        Ok(s) => Some(s.to_string()),
        Err(_) => None,
    }
}

/// The bytes decoded as UTF-8, or a fixed placeholder for bytes that
/// are not valid UTF-8.
pub fn string_or_empty_from_u8(in_val: &[u8]) -> (r: String)
    ensures
        match utf8_decoded(in_val@) {
            Some(cs) => r@ == cs,
            None => r@ == "<not_representable>"@,
        },
{
    match utf8_to_string(in_val) {
        Some(s) => s,
        None => "<not_representable>".to_owned(),
    }
}

/// The suffix stripped once from the end of the string, or the string
/// unchanged when it does not end with the suffix.
pub fn remove_suffix<'a>(in_string: &'a str, suffix: &str) -> (r: &'a str)
    ensures
        suffix@.len() <= in_string@.len() && in_string@.skip(
            in_string@.len() - suffix@.len(),
        ) == suffix@ ==> r@ == in_string@.take(in_string@.len() - suffix@.len()),
        !(suffix@.len() <= in_string@.len() && in_string@.skip(
            in_string@.len() - suffix@.len(),
        ) == suffix@) ==> r@ == in_string@,
{
    let n = in_string.unicode_len();
    let m = suffix.unicode_len();
    if m > n {
        proof {
            assert(in_string@.skip(n as int) =~= Seq::<char>::empty());
        }
        return in_string;
    }
    let tail = in_string.substring_char(n - m, n);
    if crate::chars::str_eq(tail, suffix) {
        let head = in_string.substring_char(0, n - m);
        proof {
            assert(in_string@.skip(n - m as int) =~= in_string@.subrange(n - m as int, n as int));
            assert(head@ =~= in_string@.take(n - m as int));
        }
        head
    } else {
        proof {
            assert(in_string@.skip(n - m as int) =~= in_string@.subrange(n - m as int, n as int));
        }
        in_string
    }
}

/// Relies on the `home` crate's `home_dir`: the caller's home
/// directory rendered as text, or nothing when the lookup fails or the
/// path is not representable.  The result depends on the environment,
/// so nothing more is promised of it.
#[verifier::external_body]
fn home_dir_string() -> (r: Option<String>)
{
    home::home_dir().and_then(|p| p.to_str().map(|s| s.to_string()))
}

/// `val` placed under the caller's home directory, as text: the home
/// directory, a path separator, then `val`.  Fails with
/// `EnvironmentFailure` when no home directory can be found.
pub fn relative_home_path_str(val: &str) -> (r: Result<String, UtilError>)
    ensures
        r matches Ok(s) ==> exists|h: Seq<char>| s@ == h + "/"@ + val@,
        r matches Err(e) ==> e is EnvironmentFailure,
{
    match home_dir_string() {
        None => Err(UtilError::EnvironmentFailure),
        Some(h) => {
            let ghost hv = h@;
            let mut s = h;
            s.append("/");
            s.append(val);
            proof {
                assert(s@ == hv + "/"@ + val@);
            }
            Ok(s)
        },
    }
}

} // verus!
