//! The remote asset source façade: composes the URI builder, the origin
//! policy, the cache store and the outcome classification into the
//! asset-source capability set {read, read_meta, is_directory,
//! read_directory}.
//!
//! A read is driven in two steps, because the network call itself belongs
//! to the embedding application: `read_plan` decides what one request does
//! next (serve from cache, fetch a URI, or deny), and when a fetch was
//! performed, `finish_fetch` classifies the raw response, writes a success
//! through to the cache, and returns the typed result.

use vstd::prelude::*;

use crate::cache::{save_to_cache, try_load_from_cache, CacheStore};
use crate::fetch::{classify_response, outcome_to_error, AssetReaderError, FetchOutcome, HttpResponse};
use crate::fetch::spec_transport_message;
use crate::hashing::fnv1a;
use crate::policy::{parse_url_origin, policy_equiv, spec_is_allowed, url_origin_of};
use crate::policy::{AllowedOrigins, ParsedOrigin};
use crate::uri::{build_meta_path, build_meta_uri, build_uri};
use crate::uri::{spec_meta_path, spec_meta_uri, spec_uri};

verus! {

/// Asset reader that treats paths as URLs to load assets from.
pub struct HttpSourceAssetReader {
    /// Whether URIs are built with the secure scheme prefix.
    pub secure: bool,
    /// The origins this reader may contact.
    pub allowed_origins: AllowedOrigins,
}

/// What one request does next.
pub enum ReadPlan {
    /// The cache already holds the body: no network call is issued and no
    /// access control is re-evaluated.
    Hit(Vec<u8>),
    /// This absolute URI must be fetched from the network.
    Fetch(String),
    /// The origin policy rejected the target: the request fails with an
    /// explicit access-denied error and no fetch is issued.
    Denied,
}

/// The plan, at the specification level.
pub enum PlanSpec {
    Hit(Seq<u8>),
    Fetch(Seq<char>),
    Denied,
}

/// Whether an executable plan is the planned one.
pub open spec fn plan_matches(r: ReadPlan, s: PlanSpec) -> bool {
    match r {
        ReadPlan::Hit(b) => s matches PlanSpec::Hit(bs) && b@ == bs,
        ReadPlan::Fetch(u) => s matches PlanSpec::Fetch(us) && u@ == us,
        ReadPlan::Denied => s is Denied,
    }
}

/// Whether a path is itself a fully qualified URL — a cross-origin
/// reference embedded in an asset file — rather than a bare relative path.
pub open spec fn spec_path_is_url(path: Seq<char>) -> bool {
    url_origin_of(path) is Some
}

/// Whether the policy lets a path through. The policy is applied to
/// paths that are themselves absolute URLs; a bare relative path resolves
/// against the source's own scheme and host and is always let through.
pub open spec fn spec_policy_passes(policy: AllowedOrigins, path: Seq<char>) -> bool {
    spec_path_is_url(path) ==> spec_is_allowed(policy, path)
}

/// The absolute URI a read dereferences: the path itself when it is
/// already a URL, else the path prefixed with this source's scheme.
pub open spec fn spec_resolved_uri(secure: bool, path: Seq<char>) -> Seq<char> {
    if spec_path_is_url(path) {
        path
    } else {
        spec_uri(secure, path)
    }
}

/// The absolute URI a metadata read dereferences: the sidecar metadata
/// path, absolute as it stands or prefixed with this source's scheme.
pub open spec fn spec_resolved_meta_uri(secure: bool, path: Seq<char>) -> Seq<char> {
    if spec_path_is_url(path) {
        spec_meta_path(path)
    } else {
        spec_meta_uri(secure, path)
    }
}

/// What a request for `uri` does next, given what the policy decided of the
/// incoming path: a denied path fails; a cached URI is served without any
/// network effect; everything else is fetched.
pub open spec fn spec_plan_for(
    policy: AllowedOrigins,
    path: Seq<char>,
    uri: Seq<char>,
    cache: Map<u64, Seq<u8>>,
) -> PlanSpec {
    if !spec_policy_passes(policy, path) {
        PlanSpec::Denied
    } else if cache.contains_key(fnv1a(uri)) {
        PlanSpec::Hit(cache[fnv1a(uri)])
    } else {
        PlanSpec::Fetch(uri)
    }
}

/// The plan of a read.
pub open spec fn spec_read_plan(
    r: HttpSourceAssetReader,
    path: Seq<char>,
    cache: Map<u64, Seq<u8>>,
) -> PlanSpec {
    spec_plan_for(r.allowed_origins, path, spec_resolved_uri(r.secure, path), cache)
}

/// The plan of a metadata read.
pub open spec fn spec_read_meta_plan(
    r: HttpSourceAssetReader,
    path: Seq<char>,
    cache: Map<u64, Seq<u8>>,
) -> PlanSpec {
    spec_plan_for(r.allowed_origins, path, spec_resolved_meta_uri(r.secure, path), cache)
}

impl HttpSourceAssetReader {
    /// The absolute URL for an asset path, under this reader's scheme.
    pub fn make_uri(&self, path: &str) -> (r: String)
        ensures
            r@ == spec_uri(self.secure, path@),
    {
        build_uri(self.secure, path)
    }

    /// The absolute URL of the sidecar metadata for an asset path.
    pub fn make_meta_uri(&self, path: &str) -> (r: String)
        ensures
            r@ == spec_meta_uri(self.secure, path@),
    {
        build_meta_uri(self.secure, path)
    }

    fn plan_with_uri(&self, path: &str, uri: String, cache: &CacheStore) -> (r: ReadPlan)
        ensures
            plan_matches(r, spec_plan_for(self.allowed_origins, path@, uri@, cache@)),
    {
        match parse_url_origin(path) {
            ParsedOrigin::Invalid => {},
            _ => {
                if !self.allowed_origins.is_allowed(path) {
                    return ReadPlan::Denied;
                }
            },
        }
        match try_load_from_cache(cache, uri.as_str()) {
            Some(data) => ReadPlan::Hit(vstd::slice::slice_to_vec(data.as_slice())),
            None => ReadPlan::Fetch(uri),
        }
    }

    /// Decides what a read does next: the incoming path is parsed, a
    /// cross-origin absolute reference is checked against the policy, the final
    /// URI is resolved, and the cache is consulted before any network
    /// effect.
    pub fn read_plan(&self, path: &str, cache: &CacheStore) -> (r: ReadPlan)
        ensures
            plan_matches(r, spec_read_plan(*self, path@, cache@)),
    {
        let uri = match parse_url_origin(path) {
            ParsedOrigin::Invalid => self.make_uri(path),
            _ => String::from_str(path),
        };
        self.plan_with_uri(path, uri, cache)
    }

    /// Decides what a metadata read does next; the policy applies to the
    /// incoming path and the sidecar metadata URI is fetched.
    pub fn read_meta_plan(&self, path: &str, cache: &CacheStore) -> (r: ReadPlan)
        ensures
            plan_matches(r, spec_read_meta_plan(*self, path@, cache@)),
    {
        let uri = match parse_url_origin(path) {
            ParsedOrigin::Invalid => self.make_meta_uri(path),
            _ => build_meta_path(path),
        };
        self.plan_with_uri(path, uri, cache)
    }

    /// Completes a fetch that `read_plan` requested: classifies the raw
    /// response, writes a success through to the cache — so that the next
    /// read of the same URI is a hit — and returns either the complete
    /// body or exactly one error variant. On every non-2xx answer the
    /// cache is left untouched.
    pub fn finish_fetch(&self, uri: &str, response: HttpResponse, cache: &mut CacheStore) -> (r:
        Result<Vec<u8>, AssetReaderError>)
        ensures
            response matches HttpResponse::Status(code, body) ==> {
                &&& 200 <= code < 300 ==> {
                    &&& r matches Ok(b) && b@ == body@
                    &&& final(cache)@ == old(cache)@.insert(fnv1a(uri@), body@)
                }
                &&& code == 404 ==> (r matches Err(e) && e matches AssetReaderError::NotFound(u)
                    && u@ == uri@)
                &&& !(200 <= code < 300) && code != 404 ==> r == Result::<
                    Vec<u8>,
                    AssetReaderError,
                >::Err(AssetReaderError::HttpError(code))
                &&& !(200 <= code < 300) ==> final(cache)@ == old(cache)@
            },
            response matches HttpResponse::Transport(detail) ==> {
                &&& r matches Err(e) && e matches AssetReaderError::Io(m) && m@
                    == spec_transport_message(uri@, detail@)
                &&& final(cache)@ == old(cache)@
            },
    {
        let outcome = classify_response(uri, response);
        match &outcome {
            FetchOutcome::Success(body) => {
                save_to_cache(cache, uri, body.as_slice());
            },
            _ => {},
        }
        outcome_to_error(outcome)
    }

    /// A remote source never exposes directory semantics: false for every
    /// input.
    pub fn is_directory(&self, _path: &str) -> (r: Result<bool, AssetReaderError>)
        ensures
            r matches Ok(b) && b == false,
    {
        Ok(false)
    }

    /// Enumerating a remote origin's contents is undefined: every request
    /// fails with not-found for the would-be directory URL.
    pub fn read_directory(&self, path: &str) -> (r: Result<Vec<String>, AssetReaderError>)
        ensures
            r matches Err(e) && e matches AssetReaderError::NotFound(u) && u@ == spec_uri(
                self.secure,
                path@,
            ),
    {
        Err(AssetReaderError::NotFound(self.make_uri(path)))
    }
}

/// Once a fetch that a read planned has completed and its body was written
/// through to the cache, a second read of the same path is a cache hit: it
/// returns the identical bytes and issues no network request.
pub proof fn lemma_read_idempotent(
    r: HttpSourceAssetReader,
    path: Seq<char>,
    cache: Map<u64, Seq<u8>>,
    uri: Seq<char>,
    body: Seq<u8>,
)
    requires
        spec_read_plan(r, path, cache) == PlanSpec::Fetch(uri),
    ensures
        spec_read_plan(r, path, cache.insert(fnv1a(uri), body)) == PlanSpec::Hit(body),
{
}

/// A cache hit never issues a network call and never re-evaluates access
/// control: whatever the policy, a path whose resolved URI is cached is
/// served from the cache.
pub proof fn lemma_hit_short_circuits(
    r: HttpSourceAssetReader,
    path: Seq<char>,
    cache: Map<u64, Seq<u8>>,
)
    requires
        spec_policy_passes(r.allowed_origins, path),
        cache.contains_key(fnv1a(spec_resolved_uri(r.secure, path))),
    ensures
        spec_read_plan(r, path, cache) == PlanSpec::Hit(
            cache[fnv1a(spec_resolved_uri(r.secure, path))],
        ),
{
}

/// Configuration under which the application registers the remote source:
/// a plain and a secure reader, each with its own copy of the allowed
/// origins.
pub struct HttpSourcePlugin {
    /// The allowed origins for every reader this plugin registers.
    pub allowed_origins: AllowedOrigins,
}

impl HttpSourcePlugin {
    /// The reader registered under the plain scheme.
    pub fn http_reader(&self) -> (r: HttpSourceAssetReader)
        ensures
            r.secure == false,
            policy_equiv(self.allowed_origins, r.allowed_origins),
    {
        HttpSourceAssetReader { secure: false, allowed_origins: self.allowed_origins.duplicate() }
    }

    /// The reader registered under the secure scheme.
    pub fn https_reader(&self) -> (r: HttpSourceAssetReader)
        ensures
            r.secure == true,
            policy_equiv(self.allowed_origins, r.allowed_origins),
    {
        HttpSourceAssetReader { secure: true, allowed_origins: self.allowed_origins.duplicate() }
    }
}

} // verus!
