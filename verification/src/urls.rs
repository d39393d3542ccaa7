use vstd::prelude::*;

use crate::errors::MirrorError;
use vstd::string::StrSliceExecFns;

verus! {

/// True when `p` is a prefix of `s`.
pub open spec fn has_prefix(s: Seq<char>, p: Seq<char>) -> bool {
    p.len() <= s.len() && s.subrange(0, p.len() as int) == p
}

/// What joining a reference against a base URL yields: `Some` of the
/// absolute URL's text, or `None` when the base does not parse or the join
/// fails. The result depends on the two strings alone.
pub uninterp spec fn joined_url_of(base: Seq<char>, reference: Seq<char>) -> Option<Seq<char>>;

/// Relies on `url::Url::parse` and `url::Url::join`: parses the base, joins
/// the (possibly relative) reference against it per the standard resolution
/// rules, and renders the result; `None` exactly when parsing the base or
/// joining the reference fails.
#[verifier::external_body]
fn join_against_base(base: &str, reference: &str) -> (r: Option<String>)
    ensures
        r is Some <==> joined_url_of(base@, reference@) is Some,
        r matches Some(u) ==> joined_url_of(base@, reference@) == Some(u@),
{
    match url::Url::parse(base) {
        Ok(b) => match b.join(reference) {
            Ok(absolute) => Some(absolute.as_str().to_owned()),
            Err(_) => None,
        },
        Err(_) => None,
    }
}

/// What the last path segment of a URL is: `Some` of the (possibly empty)
/// final segment of the parsed URL's path, or `None` when the URL does not
/// parse or its path cannot be split into segments. The result depends on
/// the URL text alone.
pub uninterp spec fn url_last_segment_of(u: Seq<char>) -> Option<Seq<char>>;

/// Relies on `url::Url::parse` and `url::Url::path_segments`: the final
/// segment of the URL's path; `None` when the URL does not parse or is a
/// cannot-be-a-base URL without path segments.
#[verifier::external_body]
fn last_path_segment(url_text: &str) -> (r: Option<String>)
    ensures
        r is Some <==> url_last_segment_of(url_text@) is Some,
        r matches Some(s) ==> url_last_segment_of(url_text@) == Some(s@),
{
    match url::Url::parse(url_text) {
        Ok(u) => match u.path_segments() {
            Some(segments) => segments.last().map(|s| s.to_string()),
            None => None,
        },
        Err(_) => None,
    }
}

/// The file-name suffix derived from a URL: its last path segment, or the
/// empty string when the URL yields no segment at all.
pub open spec fn filename_spec(u: Seq<char>) -> Seq<char> {
    match url_last_segment_of(u) {
        Some(s) => s,
        None => Seq::empty(),
    }
}

/// Derives the local file-name suffix for a URL: the last (possibly empty)
/// segment of its path, and the empty string for a URL with no usable path.
/// No sanitization is applied to the segment's characters.
pub fn derive_filename(url_text: &str) -> (r: String)
    ensures
        r@ == filename_spec(url_text@),
{
    match last_path_segment(url_text) {
        Some(s) => s,
        None => String::new(),
    }
}

/// Law: the derived file name is a function of the URL text alone — equal
/// URLs always yield equal file-name suffixes.
pub proof fn lemma_derive_filename_deterministic(u1: Seq<char>, u2: Seq<char>)
    requires
        u1 == u2,
    ensures
        filename_spec(u1) == filename_spec(u2),
{
}

/// Tests whether a reference already bears a scheme, by prefix-matching the
/// four characters of `http` (which also covers `https`).
pub fn has_http_prefix(s: &str) -> (r: bool)
    ensures
        r == has_prefix(s@, "http"@),
{
    proof {
        reveal_strlit("http");
    }
    let n = s.unicode_len();
    if n < 4 {
        return false;
    }
    let matched = s.get_char(0) == 'h' && s.get_char(1) == 't' && s.get_char(2) == 't'
        && s.get_char(3) == 'p';
    proof {
        if matched {
            assert(s@.subrange(0, 4) =~= "http"@);
        } else {
            assert(s@.subrange(0, 4) != "http"@) by {
                if s@.subrange(0, 4) == "http"@ {
                    assert(s@[0] == "http"@[0] && s@[1] == "http"@[1] && s@[2] == "http"@[2]
                        && s@[3] == "http"@[3]);
                }
            }
        }
    }
    matched
}

/// The resolution of a reference against a base page URL: a reference
/// already bearing the `http` prefix passes through unchanged; any other
/// reference is joined against the base.
pub open spec fn resolve_spec(base: Seq<char>, reference: Seq<char>) -> Option<Seq<char>> {
    if has_prefix(reference, "http"@) {
        Some(reference)
    } else {
        joined_url_of(base, reference)
    }
}

/// Resolves a possibly-relative reference against the base page URL to an
/// absolute, fetchable URL. Fails with `InvalidUrl` exactly when the
/// reference lacks the `http` prefix and the base cannot be parsed or the
/// join fails; in the orchestration this failure aborts the run.
pub fn resolve(base: &str, reference: &str) -> (r: Result<String, MirrorError>)
    ensures
        r is Ok <==> resolve_spec(base@, reference@) is Some,
        r matches Ok(u) ==> resolve_spec(base@, reference@) == Some(u@),
        r matches Err(e) ==> e is InvalidUrl,
{
    if has_http_prefix(reference) {
        Ok(reference.to_owned())
    } else {
        match join_against_base(base, reference) {
            Some(u) => Ok(u),
            None => Err(MirrorError::InvalidUrl),
        }
    }
}

/// Law: on a reference that already bears the `http` scheme prefix,
/// resolution is the identity, whatever the base.
pub proof fn lemma_resolve_absolute_identity(base: Seq<char>, reference: Seq<char>)
    requires
        has_prefix(reference, "http"@),
    ensures
        resolve_spec(base, reference) == Some(reference),
{
}

} // verus!
