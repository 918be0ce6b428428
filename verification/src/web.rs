//! URL scheme and origin inspection, delegated to the `url` crate.

use vstd::prelude::*;
use vstd::string::StringExecFns;

use crate::text::str_eq;

verus! {

/// The scheme of a string that parses as a URL, or `None` where it does
/// not parse. The result depends on the characters alone.
pub uninterp spec fn url_scheme(s: Seq<char>) -> Option<Seq<char>>;

/// The ASCII serialization of the origin of a string that parses as a URL,
/// or `None` where it does not parse. The result depends on the characters
/// alone.
pub uninterp spec fn url_origin(s: Seq<char>) -> Option<Seq<char>>;

/// Relies on `url::Url::parse` and `Url::scheme`: parsing either fails or
/// yields the URL's scheme, by the characters alone.
#[verifier::external_body]
pub(crate) fn scheme_of(s: &str) -> (r: Option<String>)
    ensures
        match r {
            Some(scheme) => url_scheme(s@) == Some(scheme@),
            None => url_scheme(s@) is None,
        },
{
    url::Url::parse(s).ok().map(|u| u.scheme().to_owned())
}

/// Relies on `url::Url::parse`, `Url::origin` and
/// `Origin::ascii_serialization`: parsing either fails or yields the ASCII
/// serialization of the URL's origin, by the characters alone.
#[verifier::external_body]
pub(crate) fn origin_of(s: &str) -> (r: Option<String>)
    ensures
        match r {
            Some(origin) => url_origin(s@) == Some(origin@),
            None => url_origin(s@) is None,
        },
{
    url::Url::parse(s).ok().map(|u| u.origin().ascii_serialization())
}

/// The domain name of a string that parses as a URL, or `None` where it
/// does not parse or its host is no domain name (an IP address, or no
/// host at all). The result depends on the characters alone.
pub uninterp spec fn url_domain(s: Seq<char>) -> Option<Seq<char>>;

/// The explicit port of a string that parses as a URL, or `None` where
/// it does not parse, carries no port, or carries its scheme's default
/// port. The result depends on the characters alone.
pub uninterp spec fn url_port(s: Seq<char>) -> Option<u16>;

/// The serialization of the URL `s` after setting its scheme, replacing
/// its path, and clearing query, fragment, port and password; `None`
/// where `s` does not parse as a URL or a component cannot be set. The
/// result depends on the characters alone.
pub uninterp spec fn url_rebase(s: Seq<char>, scheme: Seq<char>, path: Seq<char>) -> Option<
    Seq<char>,
>;

/// Relies on `url::Url::parse` and `Url::domain`: parsing either fails
/// or yields the URL's domain name, where its host is one, by the
/// characters alone.
#[verifier::external_body]
fn domain_of(s: &str) -> (r: Option<String>)
    ensures
        match r {
            Some(d) => url_domain(s@) == Some(d@),
            None => url_domain(s@) is None,
        },
{
    url::Url::parse(s).ok().and_then(|u| u.domain().map(|d| d.to_owned()))
}

/// Relies on `url::Url::parse` and `Url::port`: parsing either fails or
/// yields the URL's explicit, non-default port, by the characters alone.
#[verifier::external_body]
fn port_of(s: &str) -> (r: Option<u16>)
    ensures
        r == url_port(s@),
{
    url::Url::parse(s).ok().and_then(|u| u.port())
}

/// Relies on `url::Url::parse`, `set_scheme`, `set_path`, `set_query`,
/// `set_fragment`, `set_port`, `set_password` and the serialization of
/// `Url`: each setter either fails or rewrites exactly the named
/// component, by the characters alone.
#[verifier::external_body]
fn rebase_of(s: &str, scheme: &str, path: &str) -> (r: Option<String>)
    ensures
        match r {
            Some(u) => url_rebase(s@, scheme@, path@) == Some(u@),
            None => url_rebase(s@, scheme@, path@) is None,
        },
{
    let mut url = url::Url::parse(s).ok()?;
    url.set_scheme(scheme).ok()?;
    url.set_path(path);
    url.set_query(None);
    url.set_fragment(None);
    url.set_port(None).ok()?;
    url.set_password(None).ok()?;
    Some(url.to_string())
}

/// The well-known DID configuration location that belongs to a URL: the
/// URL with its scheme forced to https, the fixed configuration path,
/// and query, fragment, port and password stripped.
pub open spec fn spec_well_known_config_uri(s: Seq<char>) -> Option<Seq<char>> {
    url_rebase(s, "https"@, ".well-known/did-configuration.json"@)
}

/// Constructs the well-known DID configuration location for the given
/// URL. Fails exactly where the URL does not parse or a component
/// cannot be rewritten.
pub fn url_to_well_known_config_uri(url_string: &str) -> (r: Result<String, ()>)
    ensures
        r is Ok <==> spec_well_known_config_uri(url_string@) is Some,
        r matches Ok(u) ==> spec_well_known_config_uri(url_string@) == Some(u@),
{
    match rebase_of(url_string, "https", ".well-known/did-configuration.json") {
        Some(u) => Ok(u),
        None => Err(()),
    }
}

/// The character of one decimal digit.
pub open spec fn digit_char(d: nat) -> char {
    if d == 0 {
        '0'
    } else if d == 1 {
        '1'
    } else if d == 2 {
        '2'
    } else if d == 3 {
        '3'
    } else if d == 4 {
        '4'
    } else if d == 5 {
        '5'
    } else if d == 6 {
        '6'
    } else if d == 7 {
        '7'
    } else if d == 8 {
        '8'
    } else {
        '9'
    }
}

/// The decimal digits of `n`, most significant first.
pub open spec fn spec_decimal(n: nat) -> Seq<char>
    decreases n,
{
    if n < 10 {
        seq![digit_char(n)]
    } else {
        spec_decimal(n / 10) + seq![digit_char(n % 10)]
    }
}

/// One decimal digit as text.
fn digit_str(d: u16) -> (r: String)
    requires
        d < 10,
    ensures
        r@ =~= seq![digit_char(d as nat)],
{
    proof {
        reveal_strlit("0");
        reveal_strlit("1");
        reveal_strlit("2");
        reveal_strlit("3");
        reveal_strlit("4");
        reveal_strlit("5");
        reveal_strlit("6");
        reveal_strlit("7");
        reveal_strlit("8");
        reveal_strlit("9");
    }
    if d == 0 {
        "0".to_owned()
    } else if d == 1 {
        "1".to_owned()
    } else if d == 2 {
        "2".to_owned()
    } else if d == 3 {
        "3".to_owned()
    } else if d == 4 {
        "4".to_owned()
    } else if d == 5 {
        "5".to_owned()
    } else if d == 6 {
        "6".to_owned()
    } else if d == 7 {
        "7".to_owned()
    } else if d == 8 {
        "8".to_owned()
    } else {
        "9".to_owned()
    }
}

/// A port number in decimal.
fn u16_decimal(n: u16) -> (r: String)
    ensures
        r@ == spec_decimal(n as nat),
    decreases n,
{
    if n < 10 {
        digit_str(n)
    } else {
        let prefix = u16_decimal(n / 10);
        let digit = digit_str(n % 10);
        let r = prefix.concat(digit.as_str());
        proof {
            assert(n as nat / 10 == (n / 10) as nat);
            assert(r@ =~= spec_decimal(n as nat));
        }
        r
    }
}

/// The did:web form of a URL's authority: its domain, and its explicit
/// port percent-encoded behind it.
pub open spec fn spec_didweb(domain: Seq<char>, port: Option<u16>) -> Seq<char> {
    match port {
        Some(p) => "did:web:"@ + domain + "%3A"@ + spec_decimal(p as nat),
        None => "did:web:"@ + domain,
    }
}

/// Transforms the given URL to a did:web string. Only the domain and
/// the port of the URL are considered; a URL whose host is no domain
/// name cannot be mapped and is rejected.
pub fn url_to_didweb(url_string: &str) -> (r: Result<Vec<String>, String>)
    ensures
        r is Ok <==> url_domain(url_string@) is Some,
        r matches Ok(dids) ==> {
            &&& dids@.len() == 1
            &&& dids@[0]@ == spec_didweb(
                url_domain(url_string@).unwrap(),
                url_port(url_string@),
            )
        },
        r matches Err(e) ==> e@ == "URL has no domain name"@,
{
    let domain = match domain_of(url_string) {
        Some(domain) => domain,
        None => {
            return Err("URL has no domain name".to_owned());
        },
    };
    let mut did = "did:web:".to_owned();
    did.append(domain.as_str());
    match port_of(url_string) {
        Some(port) => {
            did.append("%3A");
            did.append(u16_decimal(port).as_str());
            proof {
                assert(did@ =~= spec_didweb(url_domain(url_string@).unwrap(), url_port(url_string@)));
            }
        },
        None => {},
    }
    Ok(vec![did])
}

/// Which query strings the verification endpoint accepts: well-formed URLs
/// whose scheme is `https` or `did`.
pub open spec fn spec_valid_url(s: Seq<char>) -> bool {
    match url_scheme(s) {
        Some(scheme) => scheme == "https"@ || scheme == "did"@,
        None => false,
    }
}

/// Accepts exactly the well-formed `https://` and `did:` URIs.
pub fn is_valid_url(url_string: &str) -> (r: bool)
    ensures
        r == spec_valid_url(url_string@),
{
    match scheme_of(url_string) {
        Some(scheme) => str_eq(scheme.as_str(), "https") || str_eq(scheme.as_str(), "did"),
        None => false,
    }
}

/// The body of an error response of the verification endpoint.
#[derive(Debug)]
pub struct VerificationErrorResponseDto {
    pub error: String,
    pub verified: bool,
}

/// A validated verification query: what to verify, as a well-formed
/// `https://` or `did:` URI.
#[derive(Debug)]
pub struct VerificationRequest {
    pub q: String,
}

impl VerificationRequest {
    /// Accepts a query parameter exactly when it is non-empty and a
    /// well-formed `https://` or `did:` URI; an empty or invalid query
    /// is rejected with the matching error body.
    pub fn parse(q: String) -> (r: Result<VerificationRequest, VerificationErrorResponseDto>)
        ensures
            r is Ok <==> q@.len() > 0 && spec_valid_url(q@),
            r matches Ok(v) ==> v.q == q,
            r matches Err(e) ==> {
                &&& !e.verified
                &&& e.error@ == if q@.len() == 0 {
                    "empty 'q' param"@
                } else {
                    "invalid 'q' param"@
                }
            },
    {
        if q.as_str().is_empty() {
            return Err(VerificationErrorResponseDto {
                error: "empty 'q' param".to_owned(),
                verified: false,
            });
        }
        if !is_valid_url(q.as_str()) {
            return Err(VerificationErrorResponseDto {
                error: "invalid 'q' param".to_owned(),
                verified: false,
            });
        }
        Ok(VerificationRequest { q })
    }
}

} // verus!
