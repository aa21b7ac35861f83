//! Client-side validation of human-entered display fields.

use vstd::prelude::*;
use vstd::string::{StringExecFns, StringSliceAdditionalSpecFns};

verus! {

/// What parsing a candidate URL yields: whether it parses and then has a
/// host, or the text of the parse error.
pub uninterp spec fn url_host_check(s: Seq<char>) -> Result<bool, Seq<char>>;

/// Relies on url::Url::parse: whether a string parses as an absolute URL,
/// whether the parsed URL has a host, and the text of the parse error all
/// depend on the string alone.
#[verifier::external_body]
fn check_url(s: &str) -> (r: Result<bool, String>)
    ensures
        match r {
            Ok(h) => url_host_check(s@) == Ok::<bool, Seq<char>>(h),
            Err(m) => url_host_check(s@) == Err::<bool, Seq<char>>(m@),
        },
{
    match url::Url::parse(s) {
        Ok(u) => Ok(u.has_host()),
        Err(e) => Err(format!("{}", e)),
    }
}

/// Accept a display field only when its encoding stays under the
/// 128-byte record bound.
pub fn is_short(string: &str) -> (r: Result<(), String>)
    ensures
        r is Ok <==> string.spec_bytes().len() < 128,
        r matches Err(m) ==> m@ == "too long: "@ + string@,
{
    if string.as_bytes().len() >= 128 {
        return Err(String::from_str("too long: ").concat(string));
    }
    Ok(())
}

/// Accept a coat-of-arms field: either empty, or a short URL with a
/// host.
pub fn is_short_url(string: &str) -> (r: Result<(), String>)
    ensures
        string.spec_bytes().len() == 0 ==> r is Ok,
        string.spec_bytes().len() > 0 ==> match url_host_check(string@) {
            Ok(has_host) => if has_host {
                (r is Ok <==> string.spec_bytes().len() < 128) && (r matches Err(m) ==> m@
                    == "too long: "@ + string@)
            } else {
                r matches Err(m) && m@ == "no host provided"@
            },
            Err(msg) => r matches Err(m) && m@ == msg,
        },
{
    if string.as_bytes().len() == 0 {
        return Ok(());
    }
    match check_url(string) {
        Ok(has_host) => {
            if !has_host {
                return Err(String::from_str("no host provided"));
            }
        },
        Err(m) => {
            return Err(m);
        },
    }
    is_short(string)
}

} // verus!
