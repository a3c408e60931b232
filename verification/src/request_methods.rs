use vstd::prelude::*;

verus! {

/// The HTTP methods a request can be sent with.
#[derive(PartialEq, Eq, Structural, Clone, Copy, Debug, Hash)]
pub enum Method {
    GET,
    POST,
    HEAD,
    DELETE,
    PUT,
    PATCH,
}

/// The text a method is shown with: its own name in capitals.
pub open spec fn method_name(m: Method) -> Seq<char> {
    match m {
        Method::GET => "GET"@,
        Method::POST => "POST"@,
        Method::HEAD => "HEAD"@,
        Method::DELETE => "DELETE"@,
        Method::PUT => "PUT"@,
        Method::PATCH => "PATCH"@,
    }
}

/// The order in which the methods are offered for choice.
pub open spec fn method_order() -> Seq<Method> {
    seq![Method::GET, Method::POST, Method::HEAD, Method::DELETE, Method::PUT, Method::PATCH]
}

/// Whether a request with this method is sent with the body text.
pub open spec fn sends_body(m: Method) -> bool {
    m == Method::POST || m == Method::PUT || m == Method::PATCH
}

/// The method of the HTTP request that is actually built: a PATCH request
/// goes out as PUT, every other method as itself.
pub open spec fn wire_method(m: Method) -> Method {
    if m == Method::PATCH { Method::PUT } else { m }
}

impl Method {
    /// The display text of the method.
    pub fn to_string(&self) -> (s: String)
        ensures
            s@ == method_name(*self),
    {
        match self {
            Method::GET => "GET".to_string(),
            Method::POST => "POST".to_string(),
            Method::HEAD => "HEAD".to_string(),
            Method::DELETE => "DELETE".to_string(),
            Method::PUT => "PUT".to_string(),
            Method::PATCH => "PATCH".to_string(),
        }
    }

    /// Every method, in the order the method choice lists them.
    pub fn all() -> (v: Vec<Method>)
        ensures
            v@ == method_order(),
    {
        let v = vec![Method::GET, Method::POST, Method::HEAD, Method::DELETE, Method::PUT, Method::PATCH];
        assert(v@ =~= method_order());
        v
    }

    /// Whether the body text is attached when a request with this method is sent.
    pub fn carries_body(&self) -> (b: bool)
        ensures
            b == sends_body(*self),
    {
        match self {
            Method::POST | Method::PUT | Method::PATCH => true,
            _ => false,
        }
    }

    /// The method the outgoing HTTP request is built with.
    pub fn wire(&self) -> (m: Method)
        ensures
            m == wire_method(*self),
    {
        match self {
            Method::PATCH => Method::PUT,
            other => *other,
        }
    }
}

/// Two different methods are never shown with the same text.
pub proof fn lemma_method_names_distinct(a: Method, b: Method)
    requires
        a != b,
    ensures
        method_name(a) != method_name(b),
{
    reveal_strlit("GET");
    reveal_strlit("POST");
    reveal_strlit("HEAD");
    reveal_strlit("DELETE");
    reveal_strlit("PUT");
    reveal_strlit("PATCH");
    assert("GET"@.len() == 3 && "GET"@[0] == 'G');
    assert("POST"@.len() == 4 && "POST"@[0] == 'P');
    assert("HEAD"@.len() == 4 && "HEAD"@[0] == 'H');
    assert("DELETE"@.len() == 6);
    assert("PUT"@.len() == 3 && "PUT"@[0] == 'P');
    assert("PATCH"@.len() == 5);
    if method_name(a) == method_name(b) {
        assert(method_name(a).len() == method_name(b).len());
        assert(method_name(a)[0] == method_name(b)[0]);
        match a {
            Method::GET => {},
            Method::POST => {},
            Method::HEAD => {},
            Method::DELETE => {},
            Method::PUT => {},
            Method::PATCH => {},
        }
    }
}

/// Every method appears in the offered order exactly once.
pub proof fn lemma_method_order_complete(m: Method)
    ensures
        method_order().contains(m),
        method_order().no_duplicates(),
{
    let o = method_order();
    match m {
        Method::GET => assert(o[0] == m),
        Method::POST => assert(o[1] == m),
        Method::HEAD => assert(o[2] == m),
        Method::DELETE => assert(o[3] == m),
        Method::PUT => assert(o[4] == m),
        Method::PATCH => assert(o[5] == m),
    }
}

/// Each method is shown by its own name in capitals; the body goes with
/// POST, PUT and PATCH and with no other; PATCH is sent as PUT and every
/// other method as itself.
pub proof fn lemma_method_parts(m: Method)
    ensures
        method_name(Method::GET) == "GET"@,
        method_name(Method::POST) == "POST"@,
        method_name(Method::HEAD) == "HEAD"@,
        method_name(Method::DELETE) == "DELETE"@,
        method_name(Method::PUT) == "PUT"@,
        method_name(Method::PATCH) == "PATCH"@,
        sends_body(m) <==> (m == Method::POST || m == Method::PUT || m == Method::PATCH),
        m == Method::PATCH ==> wire_method(m) == Method::PUT,
        m != Method::PATCH ==> wire_method(m) == m,
        method_order() == seq![Method::GET, Method::POST, Method::HEAD, Method::DELETE, Method::PUT, Method::PATCH],
{
}

} // verus!
