//! Routing decision for the static-asset endpoint.
//!
//! A requested asset filename is served only when it carries the expected
//! build prefix; the content type is chosen by the file extension. The
//! decision is pure string logic; reading the file and writing the HTTP
//! response happen outside the library.

use vstd::prelude::*;
use vstd::string::StrSliceExecFns;

verus! {

/// `p` is a prefix of `s`.
pub open spec fn spec_starts_with(s: Seq<char>, p: Seq<char>) -> bool {
    p.len() <= s.len() && s.subrange(0, p.len() as int) == p
}

/// `p` is a suffix of `s`.
pub open spec fn spec_ends_with(s: Seq<char>, p: Seq<char>) -> bool {
    p.len() <= s.len() && s.subrange(s.len() - p.len(), s.len() as int) == p
}

/// Character-wise prefix test.
pub fn str_starts_with(s: &str, p: &str) -> (b: bool)
    ensures
        b == spec_starts_with(s@, p@),
{
    let n: usize = p.unicode_len();
    let m: usize = s.unicode_len();
    if m < n {
        return false;
    }
    let mut i: usize = 0;
    while i < n
        invariant
            i <= n,
            n == p@.len(),
            m == s@.len(),
            n <= m,
            forall|j: int| 0 <= j < i ==> s@[j] == p@[j],
        decreases n - i,
    {
        if s.get_char(i) != p.get_char(i) {
            assert(spec_starts_with(s@, p@) ==> s@.subrange(0, n as int)[i as int] == p@[i as int]);
            return false;
        }
        i += 1;
    }
    assert(s@.subrange(0, n as int) =~= p@);
    true
}

/// Character-wise suffix test.
pub fn str_ends_with(s: &str, p: &str) -> (b: bool)
    ensures
        b == spec_ends_with(s@, p@),
{
    let n: usize = p.unicode_len();
    let m: usize = s.unicode_len();
    if m < n {
        return false;
    }
    let k: usize = m - n;
    let mut i: usize = 0;
    while i < n
        invariant
            i <= n,
            n == p@.len(),
            m == s@.len(),
            n <= m,
            k == m - n,
            forall|j: int| 0 <= j < i ==> s@[k + j] == p@[j],
        decreases n - i,
    {
        if s.get_char(k + i) != p.get_char(i) {
            assert(spec_ends_with(s@, p@) ==> s@.subrange(m - n, m as int)[i as int] == p@[i as int]);
            return false;
        }
        i += 1;
    }
    assert(s@.subrange(m - n, m as int) =~= p@);
    true
}

/// What the asset endpoint does with a requested filename.
#[derive(Clone, Copy, Debug, PartialEq, Eq, Structural)]
pub enum AssetDecision {
    /// The name lacks the expected build prefix: answer not-found.
    NotFound,
    /// Serve the file as JavaScript.
    Script,
    /// Serve the file as a stylesheet.
    Stylesheet,
}

/// The routing rule: only names carrying the build prefix `index-` are
/// served; the `.js` extension selects the script content type, anything
/// else is treated as a stylesheet.
pub open spec fn spec_route_asset(name: Seq<char>) -> AssetDecision {
    if !spec_starts_with(name, "index-"@) {
        AssetDecision::NotFound
    } else if spec_ends_with(name, ".js"@) {
        AssetDecision::Script
    } else {
        AssetDecision::Stylesheet
    }
}

/// Decide how to answer a request for `/assets/<filename>`.
pub fn route_asset(filename: &str) -> (d: AssetDecision)
    ensures
        d == spec_route_asset(filename@),
{
    if !str_starts_with(filename, "index-") {
        AssetDecision::NotFound
    } else if str_ends_with(filename, ".js") {
        AssetDecision::Script
    } else {
        AssetDecision::Stylesheet
    }
}

/// The content type header value for a served asset; `None` exactly when
/// the decision is not-found and nothing is served.
pub fn content_type(d: &AssetDecision) -> (t: Option<&'static str>)
    ensures
        t is None <==> d == AssetDecision::NotFound,
        d == AssetDecision::Script ==> (t matches Some(s) && s@ == "application/javascript"@),
        d == AssetDecision::Stylesheet ==> (t matches Some(s) && s@ == "text/css"@),
{
    match d {
        AssetDecision::NotFound => None,
        AssetDecision::Script => Some("application/javascript"),
        AssetDecision::Stylesheet => Some("text/css"),
    }
}

} // verus!
