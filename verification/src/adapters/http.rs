//! The HTTP client adapter's configuration and request description.

use vstd::prelude::*;
use crate::config::store::pair_views;
use crate::text::{ascii_only, ascii_upper, same_text};

verus! {

/// The duration of `secs` whole seconds, as `Duration::from_secs` makes it.
pub uninterp spec fn duration_of_secs(secs: u64) -> core::time::Duration;

/// `Duration::from_secs`: the result is named by `duration_of_secs`.
#[verifier::external_body]
pub(crate) fn secs_duration(secs: u64) -> (r: core::time::Duration)
    ensures
        r == duration_of_secs(secs),
{
    core::time::Duration::from_secs(secs)
}

/// HTTP client configuration.
#[derive(Debug)]
pub struct HttpClientConfig {
    pub timeout: core::time::Duration,
    pub connect_timeout: core::time::Duration,
    pub max_retries: u32,
    pub user_agent: Option<String>,
}

impl Clone for HttpClientConfig {
    fn clone(&self) -> (r: Self)
        ensures
            r == *self,
    {
        HttpClientConfig {
            timeout: self.timeout,
            connect_timeout: self.connect_timeout,
            max_retries: self.max_retries,
            user_agent: self.user_agent.clone(),
        }
    }
}

impl Default for HttpClientConfig {
    fn default() -> (r: Self)
        ensures
            r.timeout == duration_of_secs(30),
            r.connect_timeout == duration_of_secs(10),
            r.max_retries == 3,
            r.user_agent matches Some(ua) && ua@ == "phenotype-http-adapter/0.1.0"@,
    {
        HttpClientConfig {
            timeout: secs_duration(30),
            connect_timeout: secs_duration(10),
            max_retries: 3,
            user_agent: Some(String::from_str("phenotype-http-adapter/0.1.0")),
        }
    }
}

impl HttpClientConfig {
    /// The user agent the client announces: the configured one, or
    /// "phenotype-http-adapter" when none is configured.
    pub fn effective_user_agent(&self) -> (r: String)
        ensures
            r@ == (match self.user_agent {
                Some(ua) => ua@,
                None => "phenotype-http-adapter"@,
            }),
    {
        match &self.user_agent {
            Some(ua) => ua.clone(),
            None => String::from_str("phenotype-http-adapter"),
        }
    }
}

/// The HTTP methods a request may use.
#[derive(Debug, Clone, Copy, PartialEq, Eq, Structural)]
pub enum HttpMethod {
    Get,
    Post,
    Put,
    Delete,
    Patch,
    Head,
    Options,
}

/// The upper-case mapping of `s` as `str::to_uppercase` computes it.
pub uninterp spec fn uppercase_of(s: Seq<char>) -> Seq<char>;

/// `str::to_uppercase`: the result is named by `uppercase_of`. Of it the
/// documentation gives that each character maps to one or more characters,
/// and that ASCII text maps character by character, `a`–`z` to `A`–`Z`; the
/// mapping of other characters is not described.
#[verifier::external_body]
pub(crate) fn uppercase_str(s: &str) -> (r: String)
    ensures
        r@ == uppercase_of(s@),
        r@.len() >= s@.len(),
        r@.len() == 0 <==> s@.len() == 0,
        ascii_only(s@) ==> r@ == s@.map_values(|c: char| ascii_upper(c)),
{
    s.to_uppercase()
}

/// The method an upper-case method name denotes.
pub open spec fn method_named(name: Seq<char>) -> Option<HttpMethod> {
    if name == "GET"@ {
        Some(HttpMethod::Get)
    } else if name == "POST"@ {
        Some(HttpMethod::Post)
    } else if name == "PUT"@ {
        Some(HttpMethod::Put)
    } else if name == "DELETE"@ {
        Some(HttpMethod::Delete)
    } else if name == "PATCH"@ {
        Some(HttpMethod::Patch)
    } else if name == "HEAD"@ {
        Some(HttpMethod::Head)
    } else if name == "OPTIONS"@ {
        Some(HttpMethod::Options)
    } else {
        None
    }
}

/// Reads a request's method name, in any case; an unknown name is refused
/// with "Unknown HTTP method: " and the name in upper case.
pub fn parse_method(method: &str) -> (r: Result<HttpMethod, String>)
    ensures
        r is Ok <==> method_named(uppercase_of(method@)) is Some,
        r matches Ok(m) ==> method_named(uppercase_of(method@)) == Some(m),
        r matches Err(e) ==> e@ == "Unknown HTTP method: "@ + uppercase_of(method@),
        ascii_only(method@) ==> uppercase_of(method@) == method@.map_values(|c: char| ascii_upper(c)),
{
    let upper = uppercase_str(method);
    let u = upper.as_str();
    if same_text(u, "GET") {
        Ok(HttpMethod::Get)
    } else if same_text(u, "POST") {
        Ok(HttpMethod::Post)
    } else if same_text(u, "PUT") {
        Ok(HttpMethod::Put)
    } else if same_text(u, "DELETE") {
        Ok(HttpMethod::Delete)
    } else if same_text(u, "PATCH") {
        Ok(HttpMethod::Patch)
    } else if same_text(u, "HEAD") {
        Ok(HttpMethod::Head)
    } else if same_text(u, "OPTIONS") {
        Ok(HttpMethod::Options)
    } else {
        let mut message = String::from_str("Unknown HTTP method: ");
        message.append(u);
        Err(message)
    }
}

/// The text of an optional message.
pub open spec fn message_view(m: Option<String>) -> Option<Seq<char>> {
    match m {
        Some(s) => Some(s@),
        None => None,
    }
}

/// A character allowed in a header name: an ASCII letter or digit, or one of
/// ``!#$%&'*+-.^_`|~``.
pub open spec fn token_char(c: char) -> bool {
    ('a' <= c && c <= 'z') || ('A' <= c && c <= 'Z') || ('0' <= c && c <= '9') || c == '!' || c
        == '#' || c == '$' || c == '%' || c == '&' || c == '\'' || c == '*' || c == '+' || c == '-'
        || c == '.' || c == '^' || c == '_' || c == '`' || c == '|' || c == '~'
}

/// A valid header name: 1 to 65535 characters, each allowed in a name.
pub open spec fn header_name_ok(name: Seq<char>) -> bool {
    1 <= name.len() <= 65535 && forall|i: int| 0 <= i < name.len() ==> token_char(#[trigger] name[i])
}

/// A valid header value: no control character other than tab, and no DEL.
/// (A character beyond ASCII is encoded in bytes of 128 or more, all allowed.)
pub open spec fn header_value_ok(value: Seq<char>) -> bool {
    forall|i: int|
        0 <= i < value.len() ==> ((#[trigger] value[i]) == '\t' || (' ' <= value[i] && value[i]
            != '\x7f'))
}

/// Why a header name is refused, or `None` when it is accepted.
pub open spec fn header_name_problem(name: Seq<char>) -> Option<Seq<char>> {
    if header_name_ok(name) {
        None
    } else {
        Some("invalid HTTP header name"@)
    }
}

/// Why a header value is refused, or `None` when it is accepted.
pub open spec fn header_value_problem(value: Seq<char>) -> Option<Seq<char>> {
    if header_value_ok(value) {
        None
    } else {
        Some("failed to parse header value"@)
    }
}

/// `HeaderName::from_bytes` on the name's bytes: it accepts exactly the
/// names of 1 to 65535 bytes that are all token characters, and otherwise
/// fails with an error that displays as "invalid HTTP header name".
#[verifier::external_body]
fn check_header_name(name: &str) -> (r: Option<String>)
    ensures
        message_view(r) == header_name_problem(name@),
{
    match reqwest::header::HeaderName::from_bytes(name.as_bytes()) {
        Ok(_) => None,
        Err(e) => Some(e.to_string()),
    }
}

/// `HeaderValue::from_str`: it accepts exactly the texts whose bytes are all
/// at least 32 and not 127, or a tab, and otherwise fails with an error that
/// displays as "failed to parse header value".
#[verifier::external_body]
fn check_header_value(value: &str) -> (r: Option<String>)
    ensures
        message_view(r) == header_value_problem(value@),
{
    match reqwest::header::HeaderValue::from_str(value) {
        Ok(_) => None,
        Err(e) => Some(e.to_string()),
    }
}

/// A byte of visible ASCII text: 32 to 126, or a tab.
pub open spec fn visible_ascii_byte(b: u8) -> bool {
    (32 <= b && b < 127) || b == 9
}

/// Whether a response header value is read as text: only when all its bytes
/// are visible ASCII; any other value reads as empty.
pub fn is_visible_ascii(bytes: &[u8]) -> (r: bool)
    ensures
        r <==> forall|i: int| 0 <= i < bytes@.len() ==> visible_ascii_byte(#[trigger] bytes@[i]),
{
    let n = bytes.len();
    for i in 0..n
        invariant
            n == bytes@.len(),
            forall|j: int| 0 <= j < i ==> visible_ascii_byte(#[trigger] bytes@[j]),
    {
        let b = bytes[i];
        if !((32 <= b && b < 127) || b == 9) {
            return false;
        }
    }
    true
}

/// The first refusal among the headers, in order: for each header its name is
/// checked before its value.
pub open spec fn headers_problem(headers: Seq<(Seq<char>, Seq<char>)>) -> Option<Seq<char>>
    decreases headers.len(),
{
    if headers.len() == 0 {
        None
    } else {
        match header_name_problem(headers[0].0) {
            Some(e) => Some("Invalid header name: "@ + e),
            None => match header_value_problem(headers[0].1) {
                Some(e) => Some("Invalid header value: "@ + e),
                None => headers_problem(headers.drop_first()),
            },
        }
    }
}

/// Checks the parts of a request that are taken from text before it is
/// built: the method name, then each header's name and value in order. The
/// first refusal is returned; otherwise the method.
pub fn validate_request(method: &str, headers: &Vec<(String, String)>) -> (r: Result<HttpMethod, String>)
    ensures
        method_named(uppercase_of(method@)) is None ==> (r matches Err(e) && e@ == "Unknown HTTP method: "@
            + uppercase_of(method@)),
        method_named(uppercase_of(method@)) matches Some(m) ==> match headers_problem(
            pair_views(headers@),
        ) {
            Some(p) => r matches Err(e) && e@ == p,
            None => r == Ok::<HttpMethod, String>(m),
        },
{
    let m = match parse_method(method) {
        Ok(m) => m,
        Err(e) => return Err(e),
    };
    let ghost hs = pair_views(headers@);
    let n = headers.len();
    assert(hs.skip(0) =~= hs);
    for i in 0..n
        invariant
            n == headers@.len(),
            hs == pair_views(headers@),
            method_named(uppercase_of(method@)) == Some(m),
            headers_problem(hs) == headers_problem(hs.skip(i as int)),
    {
        assert(hs[i as int] == (headers@[i as int].0@, headers@[i as int].1@));
        assert(hs.skip(i as int)[0] == hs[i as int]);
        assert(hs.skip(i as int).drop_first() =~= hs.skip(i + 1));
        match check_header_name(headers[i].0.as_str()) {
            Some(e) => {
                let mut msg = String::from_str("Invalid header name: ");
                msg.append(e.as_str());
                return Err(msg);
            },
            None => {},
        }
        match check_header_value(headers[i].1.as_str()) {
            Some(e) => {
                let mut msg = String::from_str("Invalid header value: ");
                msg.append(e.as_str());
                return Err(msg);
            },
            None => {},
        }
    }
    assert(hs.skip(n as int) =~= Seq::<(Seq<char>, Seq<char>)>::empty());
    Ok(m)
}

/// Each upper-case method name denotes the method of the same name, and only
/// that name denotes it: so `parse_method` reads "GET", "get" or "Get" as
/// `Get`, and likewise for the others, and no two names give one method.
pub proof fn lemma_method_names(name: Seq<char>)
    ensures
        method_named(name) == Some(HttpMethod::Get) <==> name == "GET"@,
        method_named(name) == Some(HttpMethod::Post) <==> name == "POST"@,
        method_named(name) == Some(HttpMethod::Put) <==> name == "PUT"@,
        method_named(name) == Some(HttpMethod::Delete) <==> name == "DELETE"@,
        method_named(name) == Some(HttpMethod::Patch) <==> name == "PATCH"@,
        method_named(name) == Some(HttpMethod::Head) <==> name == "HEAD"@,
        method_named(name) == Some(HttpMethod::Options) <==> name == "OPTIONS"@,
        method_named(name) is None <==> !(name == "GET"@ || name == "POST"@ || name == "PUT"@ || name
            == "DELETE"@ || name == "PATCH"@ || name == "HEAD"@ || name == "OPTIONS"@),
{
    reveal_strlit("GET");
    reveal_strlit("POST");
    reveal_strlit("PUT");
    reveal_strlit("DELETE");
    reveal_strlit("PATCH");
    reveal_strlit("HEAD");
    reveal_strlit("OPTIONS");
    assert("GET"@.len() == 3 && "GET"@[0] == 'G');
    assert("PUT"@.len() == 3 && "PUT"@[0] == 'P');
    assert("POST"@.len() == 4 && "POST"@[0] == 'P');
    assert("HEAD"@.len() == 4 && "HEAD"@[0] == 'H');
    assert("PATCH"@.len() == 5);
    assert("DELETE"@.len() == 6);
    assert("OPTIONS"@.len() == 7);
}

/// The outcome of `parse_method` on a name whose upper-case form is the name
/// of a method is that method, and every other name is refused.
pub proof fn lemma_parse_method_outcome(method: Seq<char>, r: Result<HttpMethod, String>)
    requires
        r is Ok <==> method_named(uppercase_of(method)) is Some,
        r matches Ok(m) ==> method_named(uppercase_of(method)) == Some(m),
    ensures
        uppercase_of(method) == "GET"@ ==> r == Ok::<HttpMethod, String>(HttpMethod::Get),
        uppercase_of(method) == "POST"@ ==> r == Ok::<HttpMethod, String>(HttpMethod::Post),
        uppercase_of(method) == "PUT"@ ==> r == Ok::<HttpMethod, String>(HttpMethod::Put),
        uppercase_of(method) == "DELETE"@ ==> r == Ok::<HttpMethod, String>(HttpMethod::Delete),
        uppercase_of(method) == "PATCH"@ ==> r == Ok::<HttpMethod, String>(HttpMethod::Patch),
        uppercase_of(method) == "HEAD"@ ==> r == Ok::<HttpMethod, String>(HttpMethod::Head),
        uppercase_of(method) == "OPTIONS"@ ==> r == Ok::<HttpMethod, String>(HttpMethod::Options),
{
    lemma_method_names(uppercase_of(method));
}

/// Whether every header of `hs` before position `i` has a valid name and
/// value.
pub open spec fn headers_ok_before(hs: Seq<(Seq<char>, Seq<char>)>, i: int) -> bool {
    forall|j: int| 0 <= j < i ==> header_name_ok((#[trigger] hs[j]).0) && header_value_ok(hs[j].1)
}

/// Header checking, in words: the headers pass exactly when every name and
/// every value is valid; otherwise the refusal is that of the first header
/// with a fault, and for it a bad name is reported before a bad value.
pub proof fn lemma_headers_problem(hs: Seq<(Seq<char>, Seq<char>)>, i: int)
    ensures
        headers_problem(hs) is None <==> headers_ok_before(hs, hs.len() as int),
        0 <= i < hs.len() && headers_ok_before(hs, i) && !header_name_ok(hs[i].0) ==> headers_problem(hs)
            == Some("Invalid header name: "@ + "invalid HTTP header name"@),
        0 <= i < hs.len() && headers_ok_before(hs, i) && header_name_ok(hs[i].0) && !header_value_ok(
            hs[i].1,
        ) ==> headers_problem(hs) == Some("Invalid header value: "@ + "failed to parse header value"@),
    decreases hs.len(),
{
    if hs.len() > 0 {
        let rest = hs.drop_first();
        lemma_headers_problem(rest, i - 1);
        if headers_problem(hs) is None {
            assert(header_name_ok(hs[0].0));
            assert(header_value_ok(hs[0].1));
            assert(headers_problem(rest) is None);
        }
        assert forall|j: int| 0 <= j < rest.len() implies rest[j] == hs[j + 1] by {}
        if headers_ok_before(hs, hs.len() as int) {
            assert(header_name_ok(hs[0].0) && header_value_ok(hs[0].1));
            assert forall|j: int| 0 <= j < rest.len() implies header_name_ok((#[trigger] rest[j]).0)
                && header_value_ok(rest[j].1) by {
                assert(hs[j + 1] == rest[j]);
            }
        }
        if header_name_ok(hs[0].0) && header_value_ok(hs[0].1) && headers_ok_before(rest, rest.len() as int) {
            assert forall|j: int| 0 <= j < hs.len() implies header_name_ok((#[trigger] hs[j]).0)
                && header_value_ok(hs[j].1) by {
                if j > 0 {
                    assert(hs[j] == rest[j - 1]);
                }
            }
        }
        if 0 < i < hs.len() && headers_ok_before(hs, i) {
            assert(header_name_ok(hs[0].0) && header_value_ok(hs[0].1));
            assert forall|j: int| 0 <= j < i - 1 implies header_name_ok((#[trigger] rest[j]).0)
                && header_value_ok(rest[j].1) by {
                assert(hs[j + 1] == rest[j]);
            }
            assert(rest[i - 1] == hs[i]);
        }
    }
}

} // verus!
