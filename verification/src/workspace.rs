use vstd::prelude::*;
use crate::auth_methods::AuthTypes;
use crate::collections::{request_views, Request, RequestView};
use crate::header_list::{
    header_list_clone, header_list_new, header_list_pop_back, header_list_push_back, header_pairs,
};
use crate::request_methods::Method;

verus! {

/// What the request window holds: the request being edited, the header
/// being typed, and the list of saved requests.
pub struct Workspace {
    pub request_name: String,
    pub method: Method,
    pub url: String,
    pub body: String,
    pub auth_type: AuthTypes,
    pub token: String,
    /// The header name typed but not yet added.
    pub header_name: String,
    /// The header value typed but not yet added.
    pub header_value: String,
    /// The headers of the request being edited.
    pub headers: im::Vector<(String, String)>,
    /// The saved requests, oldest first.
    pub requests: Vec<Request>,
}

/// The value of a workspace, with every text as its characters.
pub struct WorkspaceView {
    pub request_name: Seq<char>,
    pub method: Method,
    pub url: Seq<char>,
    pub body: Seq<char>,
    pub auth_type: AuthTypes,
    pub token: Seq<char>,
    pub header_name: Seq<char>,
    pub header_value: Seq<char>,
    pub headers: Seq<(Seq<char>, Seq<char>)>,
    pub requests: Seq<RequestView>,
}

impl View for Workspace {
    type V = WorkspaceView;

    open spec fn view(&self) -> WorkspaceView {
        WorkspaceView {
            request_name: self.request_name@,
            method: self.method,
            url: self.url@,
            body: self.body@,
            auth_type: self.auth_type,
            token: self.token@,
            header_name: self.header_name@,
            header_value: self.header_value@,
            headers: header_pairs(self.headers),
            requests: request_views(self.requests@),
        }
    }
}

/// Whether some request in the list has this name.
pub open spec fn has_named(requests: Seq<RequestView>, name: Seq<char>) -> bool {
    exists|k: int| 0 <= k < requests.len() && #[trigger] requests[k].name == name
}

/// Whether `k` is the position of the first request with this name.
pub open spec fn is_first_named(requests: Seq<RequestView>, name: Seq<char>, k: int) -> bool {
    &&& 0 <= k < requests.len()
    &&& requests[k].name == name
    &&& forall|j: int| 0 <= j < k ==> #[trigger] requests[j].name != name
}

/// The position of the first request with this name (meaningful only
/// where `has_named` holds).
pub open spec fn first_named(requests: Seq<RequestView>, name: Seq<char>) -> int {
    choose|k: int| is_first_named(requests, name, k)
}

/// The workspace the window opens with, over the requests saved before.
pub open spec fn initial_view(saved: Seq<RequestView>) -> WorkspaceView {
    WorkspaceView {
        request_name: "New request"@,
        method: Method::GET,
        url: "https://example.com"@,
        body: Seq::empty(),
        auth_type: AuthTypes::NoAuth,
        token: Seq::empty(),
        header_name: Seq::empty(),
        header_value: Seq::empty(),
        headers: Seq::empty(),
        requests: saved,
    }
}

impl WorkspaceView {
    /// The request as it stands in the editor.
    pub open spec fn current(self) -> RequestView {
        RequestView {
            name: self.request_name,
            headers: self.headers,
            url: self.url,
            method: self.method,
            body: self.body,
            auth: (self.auth_type, self.token),
        }
    }

    /// The current request appended to the saved ones.
    pub open spec fn saved(self) -> WorkspaceView {
        WorkspaceView { requests: self.requests.push(self.current()), ..self }
    }

    /// The first saved request with this name taken out.
    pub open spec fn deleted(self, name: Seq<char>) -> WorkspaceView {
        WorkspaceView { requests: self.requests.remove(first_named(self.requests, name)), ..self }
    }

    /// A request put into the editor; the typed header and the saved list stay.
    pub open spec fn loaded(self, r: RequestView) -> WorkspaceView {
        WorkspaceView {
            request_name: r.name,
            url: r.url,
            method: r.method,
            body: r.body,
            headers: r.headers,
            auth_type: r.auth.0,
            token: r.auth.1,
            ..self
        }
    }

    /// The typed header appended to the headers, and both inputs emptied.
    pub open spec fn header_added(self) -> WorkspaceView {
        WorkspaceView {
            headers: self.headers.push((self.header_name, self.header_value)),
            header_name: Seq::empty(),
            header_value: Seq::empty(),
            ..self
        }
    }

    /// The last header taken off; nothing changes when there is none.
    pub open spec fn header_removed(self) -> WorkspaceView {
        if self.headers.len() == 0 {
            self
        } else {
            WorkspaceView { headers: self.headers.drop_last(), ..self }
        }
    }
}

/// If `k` is the first position with this name, `first_named` is `k`.
pub proof fn lemma_first_named_unique(requests: Seq<RequestView>, name: Seq<char>, k: int)
    requires
        is_first_named(requests, name, k),
    ensures
        first_named(requests, name) == k,
{
    let c: int = first_named(requests, name);
    assert(is_first_named(requests, name, c));
    if c < k {
        assert(requests[c].name != name);
    } else if c > k {
        assert(requests[k].name != name);
    }
}

impl Workspace {
    /// The workspace the window opens with, over the requests saved before.
    pub fn new(saved: Vec<Request>) -> (w: Workspace)
        ensures
            w@ == initial_view(request_views(saved@)),
            w.requests@ == saved@,
    {
        Workspace {
            request_name: "New request".to_string(),
            method: Method::GET,
            url: "https://example.com".to_string(),
            body: String::new(),
            auth_type: AuthTypes::NoAuth,
            token: String::new(),
            header_name: String::new(),
            header_value: String::new(),
            headers: header_list_new(),
            requests: saved,
        }
    }

    /// The request as it stands in the editor.
    pub fn current_request(&self) -> (r: Request)
        ensures
            r@ == self@.current(),
    {
        Request {
            name: self.request_name.clone(),
            headers: header_list_clone(&self.headers),
            url: self.url.clone(),
            method: self.method,
            body: self.body.clone(),
            auth: (self.auth_type, self.token.clone()),
        }
    }

    /// Saves the request in the editor after the saved ones.
    pub fn save_request(&mut self)
        ensures
            final(self)@ == old(self)@.saved(),
    {
        let r = self.current_request();
        let ghost before = self.requests@;
        self.requests.push(r);
        assert(request_views(self.requests@) =~= request_views(before).push(r@));
    }

    /// The position of the first saved request with this name, if any.
    pub fn find_request(&self, name: &String) -> (r: Option<usize>)
        ensures
            r matches Some(k) ==> is_first_named(self@.requests, name@, k as int),
            r is None ==> !has_named(self@.requests, name@),
    {
        let mut i: usize = 0;
        while i < self.requests.len()
            invariant
                i <= self.requests@.len(),
                forall|j: int| 0 <= j < i ==> #[trigger] self@.requests[j].name != name@,
            decreases self.requests@.len() - i,
        {
            assert(self@.requests[i as int] == self.requests@[i as int]@);
            if self.requests[i].name == *name {
                return Some(i);
            }
            i += 1;
        }
        None
    }

    /// Deletes the first saved request with this name; one must exist.
    pub fn delete_request(&mut self, name: &String)
        requires
            has_named(old(self)@.requests, name@),
        ensures
            final(self)@ == old(self)@.deleted(name@),
            final(self).requests@.len() == old(self).requests@.len() - 1,
    {
        let found = self.find_request(name);
        match found {
            Some(k) => {
                proof {
                    lemma_first_named_unique(self@.requests, name@, k as int);
                }
                let ghost before = self.requests@;
                self.requests.remove(k);
                assert(request_views(self.requests@) =~= request_views(before).remove(k as int));
            },
            None => {},
        }
    }

    /// Puts a saved request into the editor: its name, url, method, body,
    /// headers and authentication.
    pub fn load_request(&mut self, request: &Request)
        ensures
            final(self)@ == old(self)@.loaded(request@),
    {
        self.request_name = request.name.clone();
        self.url = request.url.clone();
        self.method = request.method;
        self.body = request.body.clone();
        self.headers = header_list_clone(&request.headers);
        self.token = request.auth.1.clone();
        self.auth_type = request.auth.0;
    }

    /// Adds the typed header after the others and empties both inputs.
    pub fn add_header(&mut self)
        ensures
            final(self)@ == old(self)@.header_added(),
    {
        let item = (self.header_name.clone(), self.header_value.clone());
        header_list_push_back(&mut self.headers, item);
        self.header_name = String::new();
        self.header_value = String::new();
    }

    /// Takes the last header off the list.
    pub fn remove_header(&mut self)
        ensures
            final(self)@ == old(self)@.header_removed(),
    {
        let _ = header_list_pop_back(&mut self.headers);
    }
}

/// Deleting by the name of a request just saved, when no earlier request
/// had that name, gives back the workspace as it was before the save.
pub proof fn lemma_delete_undoes_save(w: WorkspaceView)
    requires
        !has_named(w.requests, w.request_name),
    ensures
        w.saved().deleted(w.request_name) == w,
{
    let s = w.saved();
    let n = w.request_name;
    assert(s.requests[w.requests.len() as int] == w.current());
    assert forall|j: int| 0 <= j < w.requests.len() implies #[trigger] s.requests[j].name != n by {
        assert(s.requests[j] == w.requests[j]);
        if w.requests[j].name == n {
            assert(has_named(w.requests, n));
        }
    }
    assert(is_first_named(s.requests, n, w.requests.len() as int));
    lemma_first_named_unique(s.requests, n, w.requests.len() as int);
    assert(s.requests.remove(w.requests.len() as int) =~= w.requests);
}

/// Removing a header right after adding one gives back the header list as
/// it was; the two inputs stay emptied.
pub proof fn lemma_remove_undoes_add(w: WorkspaceView)
    ensures
        w.header_added().header_removed() == (WorkspaceView {
            header_name: Seq::empty(),
            header_value: Seq::empty(),
            ..w
        }),
{
    assert(w.headers.push((w.header_name, w.header_value)).drop_last() =~= w.headers);
}

/// Once a request is loaded, the editor holds exactly that request, so
/// saving right away stores an equal one.
pub proof fn lemma_load_then_current(w: WorkspaceView, r: RequestView)
    ensures
        w.loaded(r).current() == r,
        w.loaded(r).saved().requests == w.requests.push(r),
{
}

/// Loading the request that was just saved changes nothing.
pub proof fn lemma_load_just_saved(w: WorkspaceView)
    ensures
        w.saved().loaded(w.saved().requests.last()) == w.saved(),
{
    assert(w.saved().requests.last() == w.current());
}

/// Loading leaves the saved requests and the typed header alone.
pub proof fn lemma_load_keeps_saved(w: WorkspaceView, r: RequestView)
    ensures
        w.loaded(r).requests == w.requests,
        w.loaded(r).header_name == w.header_name,
        w.loaded(r).header_value == w.header_value,
{
}

/// Opening the window keeps every saved request, in order, and puts a
/// default GET request named "New request" for https://example.com, with no
/// body, headers or authentication, into the editor.
pub proof fn lemma_opening(saved: Seq<RequestView>)
    ensures
        initial_view(saved).requests == saved,
        initial_view(saved).requests.len() == saved.len(),
        forall|i: int| 0 <= i < saved.len() ==> #[trigger] initial_view(saved).requests[i] == saved[i],
        initial_view(saved).request_name == "New request"@,
        initial_view(saved).method == Method::GET,
        initial_view(saved).url == "https://example.com"@,
        initial_view(saved).body.len() == 0,
        initial_view(saved).auth_type == AuthTypes::NoAuth,
        initial_view(saved).token.len() == 0,
        initial_view(saved).header_name.len() == 0,
        initial_view(saved).header_value.len() == 0,
        initial_view(saved).headers.len() == 0,
{
}

/// The request in the editor is made of the editor's own fields.
pub proof fn lemma_current_fields(w: WorkspaceView)
    ensures
        w.current().name == w.request_name,
        w.current().headers == w.headers,
        w.current().url == w.url,
        w.current().method == w.method,
        w.current().body == w.body,
        w.current().auth.0 == w.auth_type,
        w.current().auth.1 == w.token,
{
}

/// Saving adds exactly one request, after all the saved ones, made of the
/// editor's fields; the saved ones and the editor are left as they were.
pub proof fn lemma_save_appends(w: WorkspaceView)
    ensures
        w.saved().requests.len() == w.requests.len() + 1,
        forall|i: int| 0 <= i < w.requests.len() ==> #[trigger] w.saved().requests[i] == w.requests[i],
        w.saved().requests[w.requests.len() as int].name == w.request_name,
        w.saved().requests[w.requests.len() as int].headers == w.headers,
        w.saved().requests[w.requests.len() as int].url == w.url,
        w.saved().requests[w.requests.len() as int].method == w.method,
        w.saved().requests[w.requests.len() as int].body == w.body,
        w.saved().requests[w.requests.len() as int].auth == (w.auth_type, w.token),
        (WorkspaceView { requests: w.requests, ..w.saved() }) == w,
{
}

/// Deleting by a name that some saved request has takes out exactly one
/// request, the first with that name: those before it stay in place, those
/// after it move up by one, and the editor is left alone.
pub proof fn lemma_delete_removes_first(w: WorkspaceView, name: Seq<char>, k: int)
    requires
        0 <= k < w.requests.len(),
        w.requests[k].name == name,
        forall|j: int| 0 <= j < k ==> #[trigger] w.requests[j].name != name,
    ensures
        w.deleted(name).requests.len() == w.requests.len() - 1,
        forall|i: int| 0 <= i < k ==> #[trigger] w.deleted(name).requests[i] == w.requests[i],
        forall|i: int| k <= i < w.requests.len() - 1 ==> #[trigger] w.deleted(name).requests[i] == w.requests[i + 1],
        (WorkspaceView { requests: w.requests, ..w.deleted(name) }) == w,
{
    assert(is_first_named(w.requests, name, k));
    lemma_first_named_unique(w.requests, name, k);
}

/// Adding a header appends exactly the typed pair after the others and
/// empties both inputs; nothing else changes.
pub proof fn lemma_add_header_appends(w: WorkspaceView)
    ensures
        w.header_added().headers.len() == w.headers.len() + 1,
        forall|i: int| 0 <= i < w.headers.len() ==> #[trigger] w.header_added().headers[i] == w.headers[i],
        w.header_added().headers[w.headers.len() as int] == (w.header_name, w.header_value),
        w.header_added().header_name.len() == 0,
        w.header_added().header_value.len() == 0,
        (WorkspaceView { headers: w.headers, header_name: w.header_name, header_value: w.header_value, ..w.header_added() }) == w,
{
}

/// Removing a header takes off the last one only, and nothing when there
/// is none; nothing else changes.
pub proof fn lemma_remove_header_drops_last(w: WorkspaceView)
    ensures
        w.headers.len() == 0 ==> w.header_removed() == w,
        w.headers.len() > 0 ==> w.header_removed().headers.len() == w.headers.len() - 1,
        forall|i: int| 0 <= i < w.headers.len() - 1 ==> #[trigger] w.header_removed().headers[i] == w.headers[i],
        (WorkspaceView { headers: w.headers, ..w.header_removed() }) == w,
{
}

/// Loading puts each field of the request into the editor and leaves the
/// saved requests and the typed header alone.
pub proof fn lemma_load_fields(w: WorkspaceView, r: RequestView)
    ensures
        w.loaded(r).request_name == r.name,
        w.loaded(r).headers == r.headers,
        w.loaded(r).url == r.url,
        w.loaded(r).method == r.method,
        w.loaded(r).body == r.body,
        w.loaded(r).auth_type == r.auth.0,
        w.loaded(r).token == r.auth.1,
        w.loaded(r).requests == w.requests,
        w.loaded(r).header_name == w.header_name,
        w.loaded(r).header_value == w.header_value,
{
}

} // verus!
