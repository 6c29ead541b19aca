//! Externally run nodes: parsing an external source's endpoint into the
//! host and port of its API. Resolving the host name is the caller's part.

use vstd::prelude::*;

use crate::text::{
    decimal, owned, parse_unsigned, parse_unsigned_exec, str_chars, chars_range_to_string, strip_prefix,
    strip_prefix_str, trim, trim_str,
};

verus! {

/// Failures while building a client for an external node.
#[derive(Debug, PartialEq, Eq)]
pub enum ExternalClientBuildError {
    /// The endpoint is blank.
    EmptyEndpoint { label: String },
    /// The endpoint is neither `http://` nor `https://`.
    UnsupportedScheme { label: String, endpoint: String },
    /// The endpoint names no host.
    MissingHost { label: String, endpoint: String },
    /// The endpoint names no port.
    MissingPort { label: String, endpoint: String },
    /// Resolving the host failed.
    Resolve { label: String, endpoint: String, source: String },
    /// The host resolved to no address.
    NoResolvedAddress { label: String, endpoint: String },
}

impl ExternalClientBuildError {
    /// The human-readable message of the error.
    pub open spec fn message_view(&self) -> Seq<char> {
        match self {
            ExternalClientBuildError::EmptyEndpoint { label } => "external source '"@ + label@ + "' endpoint is empty"@,
            ExternalClientBuildError::UnsupportedScheme { label, endpoint } =>
                "external source '"@ + label@ + "' endpoint '"@ + endpoint@ + "' has unsupported scheme"@,
            ExternalClientBuildError::MissingHost { label, endpoint } =>
                "external source '"@ + label@ + "' endpoint '"@ + endpoint@ + "' is missing host"@,
            ExternalClientBuildError::MissingPort { label, endpoint } =>
                "external source '"@ + label@ + "' endpoint '"@ + endpoint@ + "' is missing port"@,
            ExternalClientBuildError::Resolve { label, endpoint, source } =>
                "external source '"@ + label@ + "' endpoint '"@ + endpoint@ + "' failed to resolve: "@ + source@,
            ExternalClientBuildError::NoResolvedAddress { label, endpoint } =>
                "external source '"@ + label@ + "' endpoint '"@ + endpoint@ + "' resolved to no socket addresses"@,
        }
    }

    /// The human-readable message of the error.
    pub fn message(&self) -> (r: String)
        ensures
            r@ == self.message_view(),
    {
        match self {
            ExternalClientBuildError::EmptyEndpoint { label } => {
                let mut r = owned("external source '");
                r.append(label.as_str());
                r.append("' endpoint is empty");
                r
            },
            ExternalClientBuildError::UnsupportedScheme { label, endpoint } => {
                let mut r = owned("external source '");
                r.append(label.as_str());
                r.append("' endpoint '");
                r.append(endpoint.as_str());
                r.append("' has unsupported scheme");
                r
            },
            ExternalClientBuildError::MissingHost { label, endpoint } => {
                let mut r = owned("external source '");
                r.append(label.as_str());
                r.append("' endpoint '");
                r.append(endpoint.as_str());
                r.append("' is missing host");
                r
            },
            ExternalClientBuildError::MissingPort { label, endpoint } => {
                let mut r = owned("external source '");
                r.append(label.as_str());
                r.append("' endpoint '");
                r.append(endpoint.as_str());
                r.append("' is missing port");
                r
            },
            ExternalClientBuildError::Resolve { label, endpoint, source } => {
                let mut r = owned("external source '");
                r.append(label.as_str());
                r.append("' endpoint '");
                r.append(endpoint.as_str());
                r.append("' failed to resolve: ");
                r.append(source.as_str());
                r
            },
            ExternalClientBuildError::NoResolvedAddress { label, endpoint } => {
                let mut r = owned("external source '");
                r.append(label.as_str());
                r.append("' endpoint '");
                r.append(endpoint.as_str());
                r.append("' resolved to no socket addresses");
                r
            },
        }
    }
}

/// `s` without any trailing `c`.
pub open spec fn trim_end_char(s: Seq<char>, c: char) -> Seq<char>
    decreases s.len(),
{
    if s.len() > 0 && s.last() == c {
        trim_end_char(s.drop_last(), c)
    } else {
        s
    }
}

/// Whether `c` is a square bracket.
pub open spec fn is_bracket(c: char) -> bool {
    c == '[' || c == ']'
}

/// `s` without leading square brackets.
pub open spec fn trim_start_brackets(s: Seq<char>) -> Seq<char>
    decreases s.len(),
{
    if s.len() > 0 && is_bracket(s[0]) {
        trim_start_brackets(s.drop_first())
    } else {
        s
    }
}

/// `s` without trailing square brackets.
pub open spec fn trim_end_brackets(s: Seq<char>) -> Seq<char>
    decreases s.len(),
{
    if s.len() > 0 && is_bracket(s.last()) {
        trim_end_brackets(s.drop_last())
    } else {
        s
    }
}

/// `s` without surrounding square brackets.
pub open spec fn trim_brackets(s: Seq<char>) -> Seq<char> {
    trim_end_brackets(trim_start_brackets(s))
}

/// Position of the last `c` in `s`.
pub open spec fn last_index_of(s: Seq<char>, c: char) -> Option<nat>
    decreases s.len(),
{
    if s.len() == 0 {
        None
    } else if s.last() == c {
        Some((s.len() - 1) as nat)
    } else {
        last_index_of(s.drop_last(), c)
    }
}

/// Host and port of an authority `host:port`, split at the last colon; the
/// port must be a `u16` and the host loses surrounding brackets.
pub open spec fn split_host_port(authority: Seq<char>) -> Option<(Seq<char>, u16)> {
    match last_index_of(authority, ':') {
        Some(k) => match parse_unsigned(authority.skip(k + 1 as int), 65535) {
            Some(p) => Some((trim_brackets(authority.take(k as int)), p as u16)),
            None => None,
        },
        None => None,
    }
}

/// The endpoint without its `http://` or `https://` scheme.
pub open spec fn without_scheme(endpoint: Seq<char>) -> Option<Seq<char>> {
    match strip_prefix(endpoint, "http://"@) {
        Some(rest) => Some(rest),
        None => strip_prefix(endpoint, "https://"@),
    }
}

/// Whether `r` is the error of the endpoint `endpoint` of source `label`
/// built by `variant`.
pub open spec fn endpoint_error_is(r: Result<(String, u16), ExternalClientBuildError>, label: Seq<char>, endpoint: Seq<char>, kind: int) -> bool {
    match r {
        Err(ExternalClientBuildError::UnsupportedScheme { label: l, endpoint: e }) => kind == 0 && l@ == label && e@ == endpoint,
        Err(ExternalClientBuildError::MissingPort { label: l, endpoint: e }) => kind == 1 && l@ == label && e@ == endpoint,
        Err(ExternalClientBuildError::MissingHost { label: l, endpoint: e }) => kind == 2 && l@ == label && e@ == endpoint,
        _ => false,
    }
}

fn trim_end_slashes(s: &str) -> (r: String)
    ensures
        r@ == trim_end_char(s@, '/'),
{
    let v = str_chars(s);
    let mut end: usize = v.len();
    assert(v@.take(v.len() as int) =~= v@);
    while end > 0 && v[end - 1] == '/'
        invariant
            end <= v.len(),
            v@ == s@,
            trim_end_char(s@, '/') == trim_end_char(v@.take(end as int), '/'),
        decreases end,
    {
        assert(v@.take(end as int).drop_last() =~= v@.take(end - 1));
        end = end - 1;
    }
    assert(v@.take(v.len() as int) =~= v@);
    let r = chars_range_to_string(&v, 0, end);
    assert(r@ =~= v@.take(end as int));
    r
}

fn trim_bracket_chars(s: &str) -> (r: String)
    ensures
        r@ == trim_brackets(s@),
{
    let v = str_chars(s);
    let mut from: usize = 0;
    assert(v@.skip(0) =~= v@);
    while from < v.len() && (v[from] == '[' || v[from] == ']')
        invariant
            from <= v.len(),
            v@ == s@,
            trim_start_brackets(s@) == trim_start_brackets(v@.skip(from as int)),
        decreases v.len() - from,
    {
        assert(v@.skip(from as int).drop_first() =~= v@.skip(from + 1));
        from = from + 1;
    }
    let ghost rest = v@.skip(from as int);
    assert(trim_start_brackets(s@) == rest) by {
        if from < v.len() {
            assert(rest[0] == v@[from as int]);
        }
    }
    let mut to: usize = v.len();
    assert(rest.take(rest.len() as int) =~= rest);
    while to > from && (v[to - 1] == '[' || v[to - 1] == ']')
        invariant
            from <= to <= v.len(),
            v@ == s@,
            rest == v@.skip(from as int),
            trim_end_brackets(rest) == trim_end_brackets(rest.take(to - from)),
        decreases to,
    {
        assert(rest.take(to - from).drop_last() =~= rest.take(to - 1 - from));
        assert(rest.take(to - from).last() == v@[to - 1]);
        to = to - 1;
    }
    proof {
        if to > from {
            assert(rest.take(to - from).last() == v@[to - 1]);
        }
    }
    let r = chars_range_to_string(&v, from, to);
    assert(r@ =~= rest.take(to - from));
    r
}

fn find_last_colon(s: &str) -> (r: Option<usize>)
    ensures
        match last_index_of(s@, ':') {
            Some(k) => r == Some(k as usize),
            None => r is None,
        },
        r matches Some(k) ==> k < s@.len() && last_index_of(s@, ':') == Some(k as nat),
{
    let v = str_chars(s);
    let mut k: usize = v.len();
    assert(v@.take(v.len() as int) =~= v@);
    while k > 0
        invariant
            k <= v.len(),
            v@ == s@,
            last_index_of(s@, ':') == last_index_of(v@.take(k as int), ':'),
        decreases k,
    {
        if v[k - 1] == ':' {
            assert(v@.take(k as int).last() == ':');
            return Some(k - 1);
        }
        assert(v@.take(k as int).drop_last() =~= v@.take(k - 1));
        k = k - 1;
    }
    None
}

/// Splits an authority into host and port.
pub fn split_host_port_str(authority: &str) -> (r: Option<(String, u16)>)
    ensures
        match split_host_port(authority@) {
            Some((h, p)) => r matches Some((host, port)) && host@ == h && port == p,
            None => r is None,
        },
{
    let k = match find_last_colon(authority) {
        Some(k) => k,
        None => {
            return None;
        },
    };
    let v = str_chars(authority);
    let host_part = chars_range_to_string(&v, 0, k);
    let port_part = chars_range_to_string(&v, k + 1, v.len());
    assert(host_part@ =~= authority@.take(k as int));
    assert(port_part@ =~= authority@.skip(k + 1));
    assert(last_index_of(authority@, ':') == Some(k as nat));
    match parse_unsigned_exec(port_part.as_str(), 65535) {
        Some(p) => {
            assert(parse_unsigned(authority@.skip(k + 1 as int), 65535) == Some(p as nat));
            assert(p <= 65535);
            let host = trim_bracket_chars(host_part.as_str());
            assert(split_host_port(authority@) == Some((trim_brackets(authority@.take(k as int)), p as u16)));
            Some((host, p as u16))
        },
        None => None,
    }
}

/// The host and port of an external source's API endpoint: the trimmed
/// endpoint must be non-blank, use `http://` or `https://`, and name a host
/// and a `u16` port (trailing slashes are ignored).
pub fn parse_api_endpoint(label: &str, endpoint: &str) -> (r: Result<(String, u16), ExternalClientBuildError>)
    ensures
        ({
            let e = trim(endpoint@);
            &&& e.len() == 0 ==> (r matches Err(ExternalClientBuildError::EmptyEndpoint { label: l }) && l@ == label@)
            &&& e.len() > 0 && without_scheme(e) is None ==> endpoint_error_is(r, label@, e, 0)
            &&& e.len() > 0 ==> (without_scheme(e) matches Some(rest) ==> match split_host_port(
                trim_end_char(rest, '/'),
            ) {
                None => endpoint_error_is(r, label@, e, 1),
                Some((h, p)) => if h.len() == 0 {
                    endpoint_error_is(r, label@, e, 2)
                } else {
                    r matches Ok((host, port)) && host@ == h && port == p
                },
            })
        }),
{
    let e = trim_str(endpoint);
    if e.as_str().unicode_len() == 0 {
        return Err(ExternalClientBuildError::EmptyEndpoint { label: owned(label) });
    }
    let rest = match strip_prefix_str(e.as_str(), "http://") {
        Some(r) => r,
        None => match strip_prefix_str(e.as_str(), "https://") {
            Some(r) => r,
            None => {
                return Err(ExternalClientBuildError::UnsupportedScheme { label: owned(label), endpoint: e });
            },
        },
    };
    let authority = trim_end_slashes(rest.as_str());
    let (host, port) = match split_host_port_str(authority.as_str()) {
        Some(hp) => hp,
        None => {
            return Err(ExternalClientBuildError::MissingPort { label: owned(label), endpoint: e });
        },
    };
    if host.as_str().unicode_len() == 0 {
        return Err(ExternalClientBuildError::MissingHost { label: owned(label), endpoint: e });
    }
    Ok((host, port))
}

} // verus!
