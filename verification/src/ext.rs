//! The crate's trusted boundary: the opaque JSON payload type that rides
//! through a resolution untouched, and URL construction, which the `url`
//! crate performs.

use vstd::prelude::*;

verus! {

#[verifier::external_type_specification]
#[verifier::external_body]
pub struct ExValue(serde_json::Value);

/// What `url::Url::parse` yields on `"urn:"` followed by the given path:
/// the serialization of the parsed URL, or None when parsing fails. Parsing
/// and serialization are functions of the input string alone.
pub uninterp spec fn urn_parse(path: Seq<char>) -> Option<Seq<char>>;

/// Relies on url::Url::parse to turn an override path into the URI handed
/// to the host, under the "urn" scheme the host expects, and on
/// url::Url's Display serialization for the Ok value; the Err value is the
/// parse error's description.
#[verifier::external_body]
pub(crate) fn parse_urn(path: &str) -> (r: Result<String, String>)
    ensures
        r is Ok <==> urn_parse(path@) is Some,
        (match r {
            Ok(u) => urn_parse(path@) == Some(u@),
            Err(_) => true,
        }),
{
    match url::Url::parse(&format!("urn:{}", path)) {
        Ok(u) => Ok(u.to_string()),
        Err(e) => Err(format!("{}", e)),
    }
}

/// What parsing `base` as a URL and joining `seg` under it yields: the
/// serialization of the joined URL, or None when either step fails. Both
/// steps are functions of the two input strings alone.
pub uninterp spec fn joined_url(base: Seq<char>, seg: Seq<char>) -> Option<Seq<char>>;

/// Relies on url::Url::parse and url::Url::join to compute the install
/// location under the plugin's working-directory URI, and on url::Url's
/// Display serialization for the Ok value; the Err value is the failing
/// step's error description.
#[verifier::external_body]
pub(crate) fn join_under(base: &str, seg: &str) -> (r: Result<String, String>)
    ensures
        r is Ok <==> joined_url(base@, seg@) is Some,
        (match r {
            Ok(u) => joined_url(base@, seg@) == Some(u@),
            Err(_) => true,
        }),
{
    match url::Url::parse(base).and_then(|u| u.join(seg)) {
        Ok(u) => Ok(u.to_string()),
        Err(e) => Err(format!("{}", e)),
    }
}

} // verus!
