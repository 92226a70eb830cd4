//! Normalizes free-text repository URLs into repository identities on the
//! supported forge.
//!
//! Parsing the URL string is the `url` crate's work; everything after the
//! parse — the exact-host check, the two-non-empty-segment rule, and the
//! construction of the identity — is verified here.

use vstd::prelude::*;

use crate::model::Repository;

verus! {

/// The one forge host whose repository URLs this library resolves.
pub open spec fn forge_host() -> Seq<char> {
    seq!['g', 'i', 't', 'h', 'u', 'b', '.', 'c', 'o', 'm']
}

/// What URL parsing extracts from a string: the domain host and the path
/// segments when the string is an absolute URL whose host is a domain name,
/// and nothing otherwise. Parsing depends on the string alone, so the result
/// carries a name rather than a definition.
pub uninterp spec fn url_parts_of(s: Seq<char>) -> Option<(Seq<char>, Seq<Seq<char>>)>;

/// The parsed parts as mathematical values.
pub open spec fn parts_view(r: Option<(String, Vec<String>)>) -> Option<(Seq<char>, Seq<Seq<char>>)> {
    match r {
        Some(p) => Some((p.0@, p.1.deep_view())),
        None => None,
    }
}

/// Relies on `url::Url::parse`, `url::Url::host` and
/// `url::Url::path_segments`: parsing an absolute URL is a function of the
/// input string alone; the host, when it is a domain name, is the parsed
/// host verbatim, and the path segments are the `/`-separated components of
/// the parsed path (absent for URLs that cannot be a base).
#[verifier::external_body]
fn parse_url_parts(s: &str) -> (r: Option<(String, Vec<String>)>)
    ensures
        parts_view(r) == url_parts_of(s@),
{
    let parsed = url::Url::parse(s).ok()?;
    match parsed.host() {
        Some(url::Host::Domain(d)) => Some((
            d.to_string(),
            parsed.path_segments().map(|ps| ps.map(|seg| seg.to_string()).collect()).unwrap_or_else(
                Vec::new,
            ),
        )),
        _ => None,
    }
}

/// Whether a domain host together with path segments identifies a
/// repository: the host is exactly the forge's domain and the path has
/// exactly two non-empty segments, owner and name.
pub open spec fn parts_resolvable(host: Seq<char>, segments: Seq<Seq<char>>) -> bool {
    &&& host == forge_host()
    &&& segments.len() == 2
    &&& segments[0].len() > 0
    &&& segments[1].len() > 0
}

/// Whether a URL string resolves to a repository identity.
pub open spec fn url_resolvable(s: Seq<char>) -> bool {
    match url_parts_of(s) {
        Some(p) => parts_resolvable(p.0, p.1),
        None => false,
    }
}

/// The owner component of a resolvable URL.
pub open spec fn url_owner(s: Seq<char>) -> Seq<char> {
    match url_parts_of(s) {
        Some(p) => p.1[0],
        None => Seq::empty(),
    }
}

/// The name component of a resolvable URL.
pub open spec fn url_repo_name(s: Seq<char>) -> Seq<char> {
    match url_parts_of(s) {
        Some(p) => p.1[1],
        None => Seq::empty(),
    }
}

/// Decide whether an already-parsed URL — a domain host plus path
/// segments — identifies a repository on the supported forge, and build the
/// identity when it does.
pub fn repository_from_parts(host: &str, segments: &Vec<String>) -> (r: Option<Repository>)
    ensures
        r is Some <==> parts_resolvable(host@, segments.deep_view()),
        r matches Some(repo) ==> {
            &&& repo.owner@ == segments.deep_view()[0]
            &&& repo.name@ == segments.deep_view()[1]
            &&& repo.wf()
        },
{
    let forge = String::from_str("github.com");
    let host_owned = String::from_str(host);
    proof {
        reveal_strlit("github.com");
        assert(forge@ =~= forge_host());
    }
    if host_owned == forge && segments.len() == 2 {
        let owner = &segments[0];
        let name = &segments[1];
        proof {
            assert(segments.deep_view()[0] == owner@);
            assert(segments.deep_view()[1] == name@);
        }
        if !owner.as_str().is_empty() && !name.as_str().is_empty() {
            return Some(Repository::new(owner.as_str(), name.as_str()));
        }
    }
    None
}

impl Repository {
    /// Resolve a free-text repository URL to an identity on the supported
    /// forge. Anything else — a string that does not parse as a URL, a host
    /// other than exactly the forge domain, or a path with other than two
    /// non-empty segments — yields nothing, never a partial guess.
    pub fn from_url(repo_url: &str) -> (r: Option<Self>)
        ensures
            r is Some <==> url_resolvable(repo_url@),
            r matches Some(repo) ==> {
                &&& repo.owner@ == url_owner(repo_url@)
                &&& repo.name@ == url_repo_name(repo_url@)
                &&& repo.wf()
            },
    {
        match parse_url_parts(repo_url) {
            Some(parts) => {
                let (host, segments) = parts;
                repository_from_parts(host.as_str(), &segments)
            },
            None => None,
        }
    }

    /// The canonical URL of this repository on the forge.
    pub fn canonical_url(&self) -> (r: String)
        ensures
            r@ == canonical_url_seq(self.owner@, self.name@),
    {
        let mut s = String::from_str("https://github.com/");
        s.append(self.owner.as_str());
        s.append("/");
        s.append(self.name.as_str());
        proof {
            reveal_strlit("https://github.com/");
            reveal_strlit("/");
            assert(s@ =~= canonical_url_seq(self.owner@, self.name@));
        }
        s
    }
}

/// The canonical form `https://github.com/{owner}/{name}`.
pub open spec fn canonical_url_seq(owner: Seq<char>, name: Seq<char>) -> Seq<char> {
    seq!['h', 't', 't', 'p', 's', ':', '/', '/'] + forge_host() + seq!['/'] + owner + seq!['/']
        + name
}

/// Law: a URL that parses with the forge's own host and exactly two
/// non-empty path segments resolves, and its repository identity is those
/// two segments in order.
pub proof fn lemma_forge_url_resolves(s: Seq<char>, segments: Seq<Seq<char>>)
    requires
        url_parts_of(s) == Some((forge_host(), segments)),
        segments.len() == 2,
        segments[0].len() > 0,
        segments[1].len() > 0,
    ensures
        url_resolvable(s),
        url_owner(s) == segments[0],
        url_repo_name(s) == segments[1],
{
}

/// Law: a URL whose host is not exactly the forge domain — a subdomain, a
/// different domain, an IP address, or no host at all — never resolves.
pub proof fn lemma_foreign_host_never_resolves(s: Seq<char>)
    requires
        match url_parts_of(s) {
            Some(p) => p.0 != forge_host(),
            None => true,
        },
    ensures
        !url_resolvable(s),
{
}

/// Law: a URL on the forge host whose path has other than two segments —
/// zero, one, or three and more — never resolves.
pub proof fn lemma_segment_count_never_resolves(s: Seq<char>, segments: Seq<Seq<char>>)
    requires
        url_parts_of(s) == Some((forge_host(), segments)),
        segments.len() != 2,
    ensures
        !url_resolvable(s),
{
}

/// Law: the canonical URL of a well-formed repository resolves back to the
/// same owner and name, given that the URL parser extracts the canonical
/// host and segments from it (the parser itself is relied upon, not
/// modelled here).
pub proof fn lemma_canonical_round_trip(owner: Seq<char>, name: Seq<char>)
    requires
        owner.len() > 0,
        name.len() > 0,
        url_parts_of(canonical_url_seq(owner, name)) == Some((forge_host(), seq![owner, name])),
    ensures
        url_resolvable(canonical_url_seq(owner, name)),
        url_owner(canonical_url_seq(owner, name)) == owner,
        url_repo_name(canonical_url_seq(owner, name)) == name,
{
}

} // verus!
