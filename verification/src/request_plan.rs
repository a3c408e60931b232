use vstd::prelude::*;
use crate::auth_methods::AuthTypes;
use crate::header_list::{header_list_get, header_list_len, header_pairs};
use crate::request_methods::{sends_body, wire_method, Method};
use crate::workspace::{Workspace, WorkspaceView};

verus! {

/// How a request goes out: the method the HTTP request is built with, the
/// url, the body if one is attached, the headers in the order they are
/// added, and the bearer token if one is sent.
pub struct RequestPlan {
    pub method: Method,
    pub url: String,
    pub body: Option<String>,
    pub headers: Vec<(String, String)>,
    pub bearer_token: Option<String>,
}

/// The value of a plan, with every text as its characters.
pub struct RequestPlanView {
    pub method: Method,
    pub url: Seq<char>,
    pub body: Option<Seq<char>>,
    pub headers: Seq<(Seq<char>, Seq<char>)>,
    pub bearer_token: Option<Seq<char>>,
}

/// The values of a list of (name, value) pairs.
pub open spec fn pair_views(v: Seq<(String, String)>) -> Seq<(Seq<char>, Seq<char>)> {
    v.map_values(|p: (String, String)| p@)
}

impl View for RequestPlan {
    type V = RequestPlanView;

    open spec fn view(&self) -> RequestPlanView {
        RequestPlanView {
            method: self.method,
            url: self.url@,
            body: match self.body {
                Some(b) => Some(b@),
                None => None,
            },
            headers: pair_views(self.headers@),
            bearer_token: match self.bearer_token {
                Some(t) => Some(t@),
                None => None,
            },
        }
    }
}

/// The plan for sending a request: PATCH goes out as PUT; the body goes
/// with POST, PUT and PATCH only; every header is added, in order; the
/// token is sent as a bearer token only under bearer authentication.
pub open spec fn plan_of(
    method: Method,
    headers: Seq<(Seq<char>, Seq<char>)>,
    body: Seq<char>,
    auth: AuthTypes,
    token: Seq<char>,
    url: Seq<char>,
) -> RequestPlanView {
    RequestPlanView {
        method: wire_method(method),
        url: url,
        body: if sends_body(method) { Some(body) } else { None },
        headers: headers,
        bearer_token: if auth == AuthTypes::Bearer { Some(token) } else { None },
    }
}

/// The plan for sending the request that stands in the editor.
pub open spec fn send_plan_of(w: WorkspaceView) -> RequestPlanView {
    plan_of(w.method, w.headers, w.body, w.auth_type, w.token, w.url)
}

/// Decides how a request is sent.
pub fn plan_request(
    method: Method,
    headers: im::Vector<(String, String)>,
    body: String,
    auth: AuthTypes,
    token: String,
    url: String,
) -> (p: RequestPlan)
    ensures
        p@ == plan_of(method, header_pairs(headers), body@, auth, token@, url@),
        auth == AuthTypes::Bearer ==> (p.bearer_token matches Some(t) && t@ == token@),
        auth == AuthTypes::NoAuth ==> p.bearer_token is None,
{
    let n: usize = header_list_len(&headers);
    let mut list: Vec<(String, String)> = Vec::new();
    let mut i: usize = 0;
    while i < n
        invariant
            n == header_pairs(headers).len(),
            i <= n,
            pair_views(list@) =~= header_pairs(headers).take(i as int),
        decreases n - i,
    {
        let item = header_list_get(&headers, i);
        match item {
            Some(h) => {
                let copy = (h.0.clone(), h.1.clone());
                let ghost before = list@;
                list.push(copy);
                assert(pair_views(list@) =~= pair_views(before).push(copy@));
                assert(header_pairs(headers).take(i + 1) =~= header_pairs(headers).take(i as int).push(
                    header_pairs(headers)[i as int],
                ));
            },
            None => {},
        }
        i += 1;
    }
    assert(header_pairs(headers).take(n as int) =~= header_pairs(headers));
    let attach = method.carries_body();
    RequestPlan {
        method: method.wire(),
        url: url,
        body: if attach { Some(body) } else { None },
        headers: list,
        bearer_token: match auth {
            AuthTypes::Bearer => Some(token),
            AuthTypes::NoAuth => None,
        },
    }
}

impl Workspace {
    /// The plan for sending the request that stands in the editor.
    pub fn send_plan(&self) -> (p: RequestPlan)
        ensures
            p@ == send_plan_of(self@),
            self.auth_type == AuthTypes::Bearer ==> (p.bearer_token matches Some(t) && t@ == self.token@),
            self.auth_type == AuthTypes::NoAuth ==> p.bearer_token is None,
    {
        let r = self.current_request();
        plan_request(r.method, r.headers, r.body, r.auth.0, r.auth.1, r.url)
    }
}

/// Every method but PATCH goes out as itself; PATCH goes out as PUT.
pub proof fn lemma_plan_method(
    method: Method,
    headers: Seq<(Seq<char>, Seq<char>)>,
    body: Seq<char>,
    auth: AuthTypes,
    token: Seq<char>,
    url: Seq<char>,
)
    ensures
        method != Method::PATCH ==> plan_of(method, headers, body, auth, token, url).method == method,
        method == Method::PATCH ==> plan_of(method, headers, body, auth, token, url).method == Method::PUT,
        plan_of(method, headers, body, auth, token, url).body is Some <==> (method == Method::POST
            || method == Method::PUT || method == Method::PATCH),
{
}

/// Every part of a plan comes from the inputs as sent: the bearer token
/// depends on the authentication alone (sent under bearer, never without),
/// the body on the method alone (sent with POST, PUT and PATCH only), the
/// headers are all sent in their order, the url as given, and PATCH goes
/// out as PUT while every other method goes out as itself.
pub proof fn lemma_plan_parts(
    method: Method,
    headers: Seq<(Seq<char>, Seq<char>)>,
    body: Seq<char>,
    auth: AuthTypes,
    token: Seq<char>,
    url: Seq<char>,
)
    ensures
        plan_of(method, headers, body, AuthTypes::Bearer, token, url).bearer_token == Some(token),
        plan_of(method, headers, body, AuthTypes::NoAuth, token, url).bearer_token is None,
        (method == Method::POST || method == Method::PUT || method == Method::PATCH)
            ==> plan_of(method, headers, body, auth, token, url).body == Some(body),
        (method == Method::GET || method == Method::HEAD || method == Method::DELETE)
            ==> plan_of(method, headers, body, auth, token, url).body is None,
        plan_of(method, headers, body, auth, token, url).headers == headers,
        plan_of(method, headers, body, auth, token, url).url == url,
        method == Method::PATCH ==> plan_of(method, headers, body, auth, token, url).method == Method::PUT,
        method != Method::PATCH ==> plan_of(method, headers, body, auth, token, url).method == method,
{
}

/// Sending from the editor sends the editor's own request: its url and
/// headers, its body when its method carries one, and its token as bearer
/// token exactly when its authentication is bearer.
pub proof fn lemma_send_plan_parts(w: WorkspaceView)
    ensures
        send_plan_of(w).bearer_token == (if w.auth_type == AuthTypes::Bearer { Some(w.token) } else { None::<Seq<char>> }),
        send_plan_of(w).body == (if w.method == Method::POST || w.method == Method::PUT
            || w.method == Method::PATCH { Some(w.body) } else { None::<Seq<char>> }),
        send_plan_of(w).headers == w.headers,
        send_plan_of(w).url == w.url,
        send_plan_of(w).method == (if w.method == Method::PATCH { Method::PUT } else { w.method }),
        send_plan_of(w) == plan_of(
            w.current().method,
            w.current().headers,
            w.current().body,
            w.current().auth.0,
            w.current().auth.1,
            w.current().url,
        ),
{
}

} // verus!
