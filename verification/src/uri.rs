//! Deterministically maps a relative asset path to the absolute URL that is
//! dereferenced, and to the sidecar metadata URL.

use vstd::prelude::*;

verus! {

/// The scheme prefix selected by `secure`.
pub open spec fn spec_scheme_prefix(secure: bool) -> Seq<char> {
    if secure {
        "https://"@
    } else {
        "http://"@
    }
}

/// An absolute URI is the scheme prefix followed by the path, with every
/// character of the path preserved.
pub open spec fn spec_uri(secure: bool, path: Seq<char>) -> Seq<char> {
    spec_scheme_prefix(secure) + path
}

/// The sidecar metadata path: the metadata suffix is appended directly after
/// the path, whether or not the path already has a file extension.
pub open spec fn spec_meta_path(path: Seq<char>) -> Seq<char> {
    path + ".meta"@
}

/// The sidecar metadata URI for a path.
pub open spec fn spec_meta_uri(secure: bool, path: Seq<char>) -> Seq<char> {
    spec_uri(secure, spec_meta_path(path))
}

fn scheme_prefix(secure: bool) -> (r: &'static str)
    ensures
        r@ == spec_scheme_prefix(secure),
{
    if secure {
        "https://"
    } else {
        "http://"
    }
}

/// Prefixes the path with `http://` or `https://` according to `secure`.
pub fn build_uri(secure: bool, path: &str) -> (r: String)
    ensures
        r@ == spec_uri(secure, path@),
{
    let mut s = String::from_str(scheme_prefix(secure));
    s.append(path);
    s
}

/// Appends the metadata suffix to a path.
pub fn build_meta_path(path: &str) -> (r: String)
    ensures
        r@ == spec_meta_path(path@),
{
    let mut s = String::from_str(path);
    s.append(".meta");
    s
}

/// Derives the sidecar metadata path, then builds the absolute URI from it.
pub fn build_meta_uri(secure: bool, path: &str) -> (r: String)
    ensures
        r@ == spec_meta_uri(secure, path@),
{
    let meta = build_meta_path(path);
    build_uri(secure, meta.as_str())
}

} // verus!
