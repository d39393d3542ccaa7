use vstd::prelude::*;

use crate::errors::MirrorError;

verus! {

/// What minifying a CSS text yields: `Some` of the minified text, `None`
/// when the minifier rejects the input. The result depends on the input
/// text alone.
pub uninterp spec fn minified_css_of(css: Seq<char>) -> Option<Seq<char>>;

/// Relies on `minifier::css::minify`: tokenizes the CSS text and renders
/// the minified form; an error message exactly when tokenizing fails.
#[verifier::external_body]
fn minify_via_lib(css: &str) -> (r: Result<String, String>)
    ensures
        r is Ok <==> minified_css_of(css@) is Some,
        r matches Ok(t) ==> minified_css_of(css@) == Some(t@),
{
    match minifier::css::minify(css) {
        Ok(m) => Ok(m.to_string()),
        Err(e) => Err(e.to_string()),
    }
}

/// Minifies a CSS text. On failure the caller drops the asset: no file is
/// written for it, unlike a fetched asset of any other kind, which is
/// written as it came.
pub fn minify(css: &str) -> (r: Result<String, MirrorError>)
    ensures
        r is Ok <==> minified_css_of(css@) is Some,
        r matches Ok(t) ==> minified_css_of(css@) == Some(t@),
        r matches Err(e) ==> e is Minify,
{
    match minify_via_lib(css) {
        Ok(t) => Ok(t),
        Err(message) => Err(MirrorError::Minify(message)),
    }
}

} // verus!
