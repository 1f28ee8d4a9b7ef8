//! Per-call ambient data: headers, a fresh request identifier, method, path,
//! and remote address. Constructed fresh for every inbound call and
//! read-only to handlers.

use vstd::prelude::*;
use vstd::string::*;

use crate::json::str_strip_prefix;

verus! {

/// Relies on `uuid::Uuid::new_v4` and its `Display` form: a random
/// version-4 UUID rendered as the 36-character hyphenated string.
#[verifier::external_body]
pub fn fresh_uuid_string() -> (r: String)
    ensures
        r@.len() == 36,
{
    uuid::Uuid::new_v4().to_string()
}

/// The lower-case code point of a character: ASCII letters fold, everything
/// else is itself.
pub open spec fn lower_code(c: char) -> int {
    if 'A' <= c && c <= 'Z' {
        c as u32 + 32
    } else {
        c as u32 as int
    }
}

/// ASCII-case-insensitive equality of two character sequences.
pub open spec fn eq_ignore_case(a: Seq<char>, b: Seq<char>) -> bool {
    a.len() == b.len() && forall|i: int| 0 <= i < a.len() ==> lower_code(a[i]) == lower_code(b[i])
}

/// First-match header lookup, ASCII-case-insensitive in the name.
pub open spec fn header_lookup(hs: Seq<(String, String)>, name: Seq<char>) -> Option<Seq<char>>
    decreases hs,
{
    if hs.len() == 0 {
        None
    } else if eq_ignore_case(hs[0].0@, name) {
        Some(hs[0].1@)
    } else {
        header_lookup(hs.drop_first(), name)
    }
}

/// The bearer token inside an `authorization` header value, when the value
/// has the `Bearer ` prefix.
pub open spec fn bearer_of(auth: Seq<char>) -> Option<Seq<char>> {
    if auth.len() >= "Bearer "@.len() && auth.take("Bearer "@.len() as int) == "Bearer "@ {
        Some(auth.skip("Bearer "@.len() as int))
    } else {
        None
    }
}

/// ASCII-case-insensitive equality test on two strings.
fn str_eq_ignore_case(a: &str, b: &str) -> (r: bool)
    ensures
        r == eq_ignore_case(a@, b@),
{
    let n = a.unicode_len();
    if n != b.unicode_len() {
        return false;
    }
    for i in 0..n
        invariant
            n == a@.len(),
            n == b@.len(),
            forall|k: int| 0 <= k < i ==> lower_code(a@[k]) == lower_code(b@[k]),
        decreases n - i,
    {
        let ca = a.get_char(i);
        let cb = b.get_char(i);
        let la: u32 = if 'A' <= ca && ca <= 'Z' {
            ca as u32 + 32
        } else {
            ca as u32
        };
        let lb: u32 = if 'A' <= cb && cb <= 'Z' {
            cb as u32 + 32
        } else {
            cb as u32
        };
        if la != lb {
            return false;
        }
    }
    true
}

proof fn lemma_header_lookup_skip(hs: Seq<(String, String)>, name: Seq<char>, i: int)
    requires
        0 <= i <= hs.len(),
        forall|j: int| 0 <= j < i ==> !eq_ignore_case((#[trigger] hs[j]).0@, name),
    ensures
        header_lookup(hs, name) == header_lookup(hs.skip(i), name),
    decreases i,
{
    if i > 0 {
        lemma_header_lookup_skip(hs, name, i - 1);
        assert(hs.skip(i - 1).len() > 0);
        assert(hs.skip(i - 1)[0] == hs[i - 1]);
        assert(hs.skip(i - 1).drop_first() =~= hs.skip(i));
    } else {
        assert(hs.skip(0) =~= hs);
    }
}

/// Request context passed to all handler invocations.
#[derive(Debug, Clone, PartialEq, Eq)]
pub struct RequestContext {
    /// The inbound headers, as name/value pairs in arrival order.
    pub headers: Vec<(String, String)>,
    /// A fresh identifier for tracing this call.
    pub request_id: String,
    /// The HTTP method of the inbound call.
    pub method: String,
    /// The path of the inbound call.
    pub path: String,
    /// The remote peer's address, when known.
    pub remote_addr: Option<String>,
}

impl RequestContext {
    /// A fresh context: the given call data plus a newly generated request
    /// identifier.
    pub fn new(
        headers: Vec<(String, String)>,
        method: String,
        path: String,
        remote_addr: Option<String>,
    ) -> (r: Self)
        ensures
            r.headers == headers,
            r.method == method,
            r.path == path,
            r.remote_addr == remote_addr,
            r.request_id@.len() == 36,
    {
        RequestContext { headers, request_id: fresh_uuid_string(), method, path, remote_addr }
    }

    /// The first header whose name matches `name`, ignoring ASCII case.
    #[verifier::loop_isolation(false)]
    pub fn get_header(&self, name: &str) -> (r: Option<String>)
        ensures
            match r {
                Some(v) => header_lookup(self.headers@, name@) == Some(v@),
                None => header_lookup(self.headers@, name@) is None,
            },
    {
        let n = self.headers.len();
        for i in 0..n
            invariant
                n == self.headers@.len(),
                forall|j: int|
                    0 <= j < i ==> !eq_ignore_case((#[trigger] self.headers@[j]).0@, name@),
            decreases n - i,
        {
            if str_eq_ignore_case(self.headers[i].0.as_str(), name) {
                proof {
                    lemma_header_lookup_skip(self.headers@, name@, i as int);
                    assert(self.headers@.skip(i as int)[0] == self.headers@[i as int]);
                }
                return Some(self.headers[i].1.clone());
            }
        }
        proof {
            lemma_header_lookup_skip(self.headers@, name@, n as int);
            assert(self.headers@.skip(n as int) =~= Seq::<(String, String)>::empty());
        }
        None
    }

    /// The `authorization` header, when present.
    pub fn get_authorization(&self) -> (r: Option<String>)
        ensures
            match r {
                Some(v) => header_lookup(self.headers@, "authorization"@) == Some(v@),
                None => header_lookup(self.headers@, "authorization"@) is None,
            },
    {
        self.get_header("authorization")
    }

    /// The bearer token of the `authorization` header: present exactly when
    /// that header exists and begins with `Bearer `.
    pub fn get_bearer_token(&self) -> (r: Option<String>)
        ensures
            match r {
                Some(t) => (match header_lookup(self.headers@, "authorization"@) {
                    Some(auth) => bearer_of(auth) == Some(t@),
                    None => false,
                }),
                None => (match header_lookup(self.headers@, "authorization"@) {
                    Some(auth) => bearer_of(auth) is None,
                    None => true,
                }),
            },
    {
        match self.get_authorization() {
            Some(auth) => str_strip_prefix(auth.as_str(), "Bearer "),
            None => None,
        }
    }

    /// A header by name, same lookup as `get_header`.
    pub fn get_custom_header(&self, name: &str) -> (r: Option<String>)
        ensures
            match r {
                Some(v) => header_lookup(self.headers@, name@) == Some(v@),
                None => header_lookup(self.headers@, name@) is None,
            },
    {
        self.get_header(name)
    }
}

} // verus!
