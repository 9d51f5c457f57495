use vstd::prelude::*;

verus! {

/// A response header: name and value.
pub struct Header {
    pub name: String,
    pub value: String,
}

/// The cross-origin policy applied to every request.
pub struct CorsPolicy {
    pub allow_any_origin: bool,
    pub allow_any_method: bool,
    pub allow_any_header: bool,
    /// How long a browser may cache a preflight answer, in seconds.
    pub max_age_secs: usize,
}

pub const PREFLIGHT_MAX_AGE_SECS: usize = 3600;

/// The two headers set on every response, whatever the route or status.
pub open spec fn security_headers_spec() -> Seq<(Seq<char>, Seq<char>)> {
    seq![
        ("Cross-Origin-Opener-Policy"@, "same-origin"@),
        ("Cross-Origin-Embedder-Policy"@, "require-corp"@),
    ]
}

pub open spec fn headers_view(h: Seq<Header>) -> Seq<(Seq<char>, Seq<char>)> {
    h.map_values(|x: Header| (x.name@, x.value@))
}

fn header(name: &str, value: &str) -> (r: Header)
    ensures
        r.name@ == name@,
        r.value@ == value@,
{
    Header { name: String::from_str(name), value: String::from_str(value) }
}

/// The security headers, in the order they are set.
pub fn security_headers() -> (r: Vec<Header>)
    ensures
        headers_view(r@) == security_headers_spec(),
{
    let r = vec![
        header("Cross-Origin-Opener-Policy", "same-origin"),
        header("Cross-Origin-Embedder-Policy", "require-corp"),
    ];
    assert(headers_view(r@) =~= security_headers_spec());
    r
}

/// The permissive cross-origin policy: any origin, method and header, with
/// preflight answers cached for an hour.
pub fn cors_policy() -> (r: CorsPolicy)
    ensures
        r.allow_any_origin,
        r.allow_any_method,
        r.allow_any_header,
        r.max_age_secs == 3600,
{
    CorsPolicy {
        allow_any_origin: true,
        allow_any_method: true,
        allow_any_header: true,
        max_age_secs: PREFLIGHT_MAX_AGE_SECS,
    }
}

} // verus!
