//! The origin policy: decides whether a fully qualified URL may be
//! contacted. An origin is the (scheme, host, port) triple of an endpoint;
//! two origins are equal iff all three components match exactly — no
//! wildcarding, no subdomain matching.

use vstd::prelude::*;

verus! {

/// The (scheme, host, port) triple identifying a network endpoint.
pub struct Origin {
    pub scheme: String,
    pub host: String,
    pub port: u16,
}

impl View for Origin {
    type V = (Seq<char>, Seq<char>, u16);

    open spec fn view(&self) -> (Seq<char>, Seq<char>, u16) {
        (self.scheme@, self.host@, self.port)
    }
}

/// What the `url` crate decides about a string: `None` if it is not a
/// well-formed URL; `Some(None)` if it is a URL whose origin is opaque
/// (a non-special scheme), which no separately constructed origin equals;
/// `Some(Some(t))` if its origin is the (scheme, host, port) triple `t`,
/// the port filled in from the scheme's default where the URL names none.
pub uninterp spec fn url_origin_of(s: Seq<char>) -> Option<Option<(Seq<char>, Seq<char>, u16)>>;

/// The three outcomes of parsing a URL string and taking its origin.
pub enum ParsedOrigin {
    /// The string is not a well-formed URL.
    Invalid,
    /// A well-formed URL whose origin is opaque: it matches no origin that
    /// was constructed separately, so it can never be on an allow list.
    Opaque,
    /// A well-formed URL with a (scheme, host, port) origin.
    Known(Origin),
}

/// Relies on `url::Url::parse` and `url::Url::origin`: whether a string is a
/// well-formed URL, and the origin the URL crate assigns to it, are
/// functions of the string alone. For the schemes ftp, http, https, ws and
/// wss the origin is the (scheme, host, port-or-known-default) triple, and a
/// blob URL takes the origin of the URL in its path; every other scheme gets
/// an opaque origin, equal only to itself.
#[verifier::external_body]
pub(crate) fn parse_url_origin(s: &str) -> (r: ParsedOrigin)
    ensures
        r matches ParsedOrigin::Invalid <==> url_origin_of(s@) is None,
        r matches ParsedOrigin::Opaque <==> (url_origin_of(s@) matches Some(t) && t is None),
        r matches ParsedOrigin::Known(o) ==> url_origin_of(s@) == Some(
            Some((o.scheme@, o.host@, o.port)),
        ),
{
    match url::Url::parse(s) {
        Err(_) => ParsedOrigin::Invalid,
        Ok(u) => match u.origin() {
            url::Origin::Opaque(_) => ParsedOrigin::Opaque,
            url::Origin::Tuple(scheme, host, port) => ParsedOrigin::Known(
                Origin { scheme, host: host.to_string(), port },
            ),
        },
    }
}

/// Restricts which network origins may be contacted. Immutable once
/// constructed and shared read-only across all requests of one source.
pub enum AllowedOrigins {
    /// Allow all origins.
    All,
    /// Allow only the listed origins.
    Only(Vec<Origin>),
}

/// Whether an origin triple is present in a list, by exact match of all
/// three components.
pub open spec fn origin_listed(list: Seq<Origin>, t: (Seq<char>, Seq<char>, u16)) -> bool {
    exists|i: int| 0 <= i < list.len() && list[i]@ == t
}

/// Whether a policy lists an origin triple. The Allow-All policy lists none:
/// it does not need to.
pub open spec fn policy_has_origin(policy: AllowedOrigins, t: (Seq<char>, Seq<char>, u16)) -> bool {
    policy matches AllowedOrigins::Only(list) && origin_listed(list@, t)
}

/// What `is_allowed` decides about a URL string: Allow-All admits every
/// string; Allow-Only admits exactly the well-formed URLs whose origin
/// triple is on the list, so a URL that does not parse, or whose origin is
/// opaque, is never admitted by a list.
pub open spec fn spec_is_allowed(policy: AllowedOrigins, url: Seq<char>) -> bool {
    match policy {
        AllowedOrigins::All => true,
        AllowedOrigins::Only(list) => match url_origin_of(url) {
            Some(Some(t)) => origin_listed(list@, t),
            _ => false,
        },
    }
}

/// Two policies that are the same decision rule: both admit everything, or
/// they list the same origins in the same order.
pub open spec fn policy_equiv(a: AllowedOrigins, b: AllowedOrigins) -> bool {
    match a {
        AllowedOrigins::All => b is All,
        AllowedOrigins::Only(x) => b matches AllowedOrigins::Only(y) && x@ == y@,
    }
}

/// Equivalent policies admit exactly the same URLs.
pub proof fn lemma_equiv_policies_agree(a: AllowedOrigins, b: AllowedOrigins, url: Seq<char>)
    requires
        policy_equiv(a, b),
    ensures
        spec_is_allowed(a, url) == spec_is_allowed(b, url),
{
}

fn origins_contain(list: &Vec<Origin>, o: &Origin) -> (r: bool)
    ensures
        r == origin_listed(list@, o@),
{
    let mut i: usize = 0;
    while i < list.len()
        invariant
            i <= list@.len(),
            forall|j: int| 0 <= j < i ==> list@[j]@ != o@,
        decreases list@.len() - i,
    {
        let entry = &list[i];
        if entry.scheme == o.scheme && entry.host == o.host && entry.port == o.port {
            assert(list@[i as int]@ == o@);
            return true;
        }
        i = i + 1;
    }
    false
}

impl AllowedOrigins {
    /// Builds the Allow-Only policy from a list of origin strings. A string
    /// that is not a well-formed URL is a configuration error and is ruled
    /// out here; use `try_new` to surface it as a value instead. An entry
    /// whose origin is opaque can never match a request and so lands on no
    /// list.
    pub fn new(origins: Vec<String>) -> (r: AllowedOrigins)
        requires
            forall|i: int| 0 <= i < origins@.len() ==> url_origin_of(origins@[i]@) is Some,
        ensures
            r is Only,
            forall|t: (Seq<char>, Seq<char>, u16)|
                #[trigger] policy_has_origin(r, t) <==> (exists|i: int|
                    0 <= i < origins@.len() && url_origin_of(origins@[i]@) == Some(Some(t))),
    {
        let mut list: Vec<Origin> = Vec::new();
        let n = origins.len();
        let mut i: usize = 0;
        while i < n
            invariant
                n == origins@.len(),
                i <= n,
                forall|k: int| 0 <= k < origins@.len() ==> url_origin_of(origins@[k]@) is Some,
                forall|t: (Seq<char>, Seq<char>, u16)|
                    #[trigger] origin_listed(list@, t) <==> (exists|j: int|
                        0 <= j < i && url_origin_of(origins@[j]@) == Some(Some(t))),
            decreases n - i,
        {
            let ghost old_list = list@;
            match parse_url_origin(origins[i].as_str()) {
                ParsedOrigin::Known(o) => {
                    list.push(o);
                    proof {
                        assert forall|t: (Seq<char>, Seq<char>, u16)|
                            #[trigger] origin_listed(list@, t) implies (exists|j: int|
                            0 <= j < i + 1 && url_origin_of(origins@[j]@) == Some(Some(t))) by {
                            let w = choose|w: int|
                                0 <= w < list@.len() && list@[w]@ == t;
                            if w < old_list.len() {
                                assert(origin_listed(old_list, t));
                            } else {
                                assert(url_origin_of(origins@[i as int]@) == Some(Some(t)));
                            }
                        }
                        assert forall|t: (Seq<char>, Seq<char>, u16)|
                            (exists|j: int|
                                0 <= j < i + 1 && url_origin_of(origins@[j]@) == Some(
                                    Some(t),
                                )) implies #[trigger] origin_listed(list@, t) by {
                            let j = choose|j: int|
                                0 <= j < i + 1 && url_origin_of(origins@[j]@) == Some(Some(t));
                            if j < i {
                                assert(origin_listed(old_list, t));
                                let w = choose|w: int|
                                    0 <= w < old_list.len() && old_list[w]@ == t;
                                assert(list@[w]@ == t);
                            } else {
                                assert(list@[list@.len() - 1]@ == t);
                            }
                        }
                    }
                },
                ParsedOrigin::Opaque => {
                    proof {
                        assert forall|t: (Seq<char>, Seq<char>, u16)|
                            (exists|j: int|
                                0 <= j < i + 1 && url_origin_of(origins@[j]@) == Some(
                                    Some(t),
                                )) implies #[trigger] origin_listed(list@, t) by {
                            let j = choose|j: int|
                                0 <= j < i + 1 && url_origin_of(origins@[j]@) == Some(Some(t));
                            assert(0 <= j < i);
                        }
                    }
                },
                ParsedOrigin::Invalid => {
                    proof {
                        assert(url_origin_of(origins@[i as int]@) is Some);
                        assert(false);
                    }
                },
            }
            i = i + 1;
        }
        AllowedOrigins::Only(list)
    }

    /// Builds the Allow-Only policy, or reports `None` when some string is
    /// not a well-formed URL, instead of ruling such inputs out up front.
    pub fn try_new(origins: Vec<String>) -> (r: Option<AllowedOrigins>)
        ensures
            r is Some <==> (forall|i: int|
                0 <= i < origins@.len() ==> url_origin_of(origins@[i]@) is Some),
            r matches Some(p) ==> {
                &&& p is Only
                &&& forall|t: (Seq<char>, Seq<char>, u16)|
                    #[trigger] policy_has_origin(p, t) <==> (exists|i: int|
                        0 <= i < origins@.len() && url_origin_of(origins@[i]@) == Some(Some(t)))
            },
    {
        let n = origins.len();
        let mut i: usize = 0;
        while i < n
            invariant
                n == origins@.len(),
                i <= n,
                forall|k: int| 0 <= k < i ==> url_origin_of(origins@[k]@) is Some,
            decreases n - i,
        {
            match parse_url_origin(origins[i].as_str()) {
                ParsedOrigin::Invalid => {
                    return None;
                },
                _ => {},
            }
            i = i + 1;
        }
        Some(AllowedOrigins::new(origins))
    }

    /// A copy of the policy. Each reader instance a source registers holds
    /// its own read-only copy.
    pub fn duplicate(&self) -> (r: AllowedOrigins)
        ensures
            policy_equiv(*self, r),
    {
        match self {
            AllowedOrigins::All => AllowedOrigins::All,
            AllowedOrigins::Only(list) => {
                let mut out: Vec<Origin> = Vec::new();
                let mut i: usize = 0;
                while i < list.len()
                    invariant
                        i <= list@.len(),
                        out@ =~= list@.take(i as int),
                    decreases list@.len() - i,
                {
                    let entry = &list[i];
                    out.push(
                        Origin {
                            scheme: entry.scheme.clone(),
                            host: entry.host.clone(),
                            port: entry.port,
                        },
                    );
                    proof {
                        assert(out@ =~= list@.take(i + 1));
                    }
                    i = i + 1;
                }
                proof {
                    assert(list@.take(list@.len() as int) =~= list@);
                }
                AllowedOrigins::Only(out)
            },
        }
    }

    /// Whether the policy admits a URL. Allow-All admits every string, in
    /// particular every syntactically valid URL; Allow-Only admits exactly
    /// the URLs whose origin triple is on the list.
    pub fn is_allowed(&self, url: &str) -> (r: bool)
        ensures
            r == spec_is_allowed(*self, url@),
            *self is All ==> r,
    {
        match self {
            AllowedOrigins::All => true,
            AllowedOrigins::Only(list) => match parse_url_origin(url) {
                ParsedOrigin::Known(o) => origins_contain(list, &o),
                _ => false,
            },
        }
    }
}

} // verus!
