use atticus::auth_methods::AuthTypes;
use atticus::collections::{Collection, Request};
use atticus::request_methods::Method;
use atticus::workspace::Workspace;

fn pairs(v: &im::Vector<(String, String)>) -> Vec<(String, String)> {
    v.iter().cloned().collect()
}

fn request(name: &str, url: &str) -> Request {
    let mut headers = im::Vector::new();
    headers.push_back(("Accept".to_string(), "application/json".to_string()));
    Request {
        name: name.to_string(),
        headers,
        url: url.to_string(),
        method: Method::POST,
        body: "{\"a\":1}".to_string(),
        auth: (AuthTypes::Bearer, "tok".to_string()),
    }
}

#[test]
fn new_workspace_defaults() {
    let w = Workspace::new(vec![request("one", "http://a")]);
    assert_eq!(w.request_name, "New request");
    assert_eq!(w.method, Method::GET);
    assert_eq!(w.url, "https://example.com");
    assert_eq!(w.body, "");
    assert_eq!(w.auth_type, AuthTypes::NoAuth);
    assert_eq!(w.token, "");
    assert_eq!(w.header_name, "");
    assert_eq!(w.header_value, "");
    assert!(w.headers.is_empty());
    assert_eq!(w.requests.len(), 1);
    assert_eq!(w.requests[0].name, "one");
}

#[test]
fn save_appends_current_request() {
    let mut w = Workspace::new(vec![request("one", "http://a")]);
    w.request_name = "two".to_string();
    w.url = "http://b".to_string();
    w.method = Method::DELETE;
    w.body = "x".to_string();
    w.token = "t".to_string();
    w.auth_type = AuthTypes::Bearer;
    w.header_name = "H".to_string();
    w.header_value = "V".to_string();
    w.add_header();
    w.save_request();
    assert_eq!(w.requests.len(), 2);
    assert_eq!(w.requests[0], request("one", "http://a"));
    let saved = &w.requests[1];
    assert_eq!(saved.name, "two");
    assert_eq!(saved.url, "http://b");
    assert_eq!(saved.method, Method::DELETE);
    assert_eq!(saved.body, "x");
    assert_eq!(saved.auth, (AuthTypes::Bearer, "t".to_string()));
    assert_eq!(pairs(&saved.headers), vec![("H".to_string(), "V".to_string())]);
}

#[test]
fn find_gives_first_with_name() {
    let w = Workspace::new(vec![
        request("a", "http://1"),
        request("b", "http://2"),
        request("a", "http://3"),
    ]);
    assert_eq!(w.find_request(&"a".to_string()), Some(0));
    assert_eq!(w.find_request(&"b".to_string()), Some(1));
    assert_eq!(w.find_request(&"c".to_string()), None);
}

#[test]
fn delete_removes_only_first_with_name() {
    let mut w = Workspace::new(vec![
        request("a", "http://1"),
        request("b", "http://2"),
        request("a", "http://3"),
    ]);
    w.delete_request(&"a".to_string());
    assert_eq!(w.requests.len(), 2);
    assert_eq!(w.requests[0].url, "http://2");
    assert_eq!(w.requests[1].url, "http://3");
    w.delete_request(&"a".to_string());
    assert_eq!(w.requests.len(), 1);
    assert_eq!(w.requests[0].name, "b");
}

#[test]
fn delete_undoes_save() {
    let mut w = Workspace::new(vec![request("a", "http://1")]);
    w.request_name = "fresh".to_string();
    let before = w.requests.clone();
    w.save_request();
    assert_eq!(w.requests.len(), 2);
    w.delete_request(&"fresh".to_string());
    assert_eq!(w.requests, before);
}

#[test]
fn load_fills_editor_and_keeps_the_rest() {
    let mut w = Workspace::new(vec![request("a", "http://1")]);
    w.header_name = "typed".to_string();
    let r = request("loaded", "http://loaded");
    w.load_request(&r);
    assert_eq!(w.request_name, "loaded");
    assert_eq!(w.url, "http://loaded");
    assert_eq!(w.method, Method::POST);
    assert_eq!(w.body, "{\"a\":1}");
    assert_eq!(w.auth_type, AuthTypes::Bearer);
    assert_eq!(w.token, "tok");
    assert_eq!(pairs(&w.headers), pairs(&r.headers));
    assert_eq!(w.header_name, "typed");
    assert_eq!(w.requests.len(), 1);
    assert_eq!(w.current_request(), r);
}

#[test]
fn add_header_appends_and_clears_inputs() {
    let mut w = Workspace::new(Vec::new());
    w.header_name = "A".to_string();
    w.header_value = "1".to_string();
    w.add_header();
    w.header_name = "B".to_string();
    w.header_value = "2".to_string();
    w.add_header();
    assert_eq!(
        pairs(&w.headers),
        vec![("A".to_string(), "1".to_string()), ("B".to_string(), "2".to_string())]
    );
    assert_eq!(w.header_name, "");
    assert_eq!(w.header_value, "");
}

#[test]
fn remove_header_takes_the_last() {
    let mut w = Workspace::new(Vec::new());
    w.header_name = "A".to_string();
    w.add_header();
    w.header_name = "B".to_string();
    w.add_header();
    w.remove_header();
    assert_eq!(pairs(&w.headers), vec![("A".to_string(), String::new())]);
    w.remove_header();
    assert!(w.headers.is_empty());
    w.remove_header();
    assert!(w.headers.is_empty());
}

#[test]
fn remove_undoes_add() {
    let mut w = Workspace::new(Vec::new());
    w.header_name = "A".to_string();
    w.add_header();
    let before = pairs(&w.headers);
    w.header_name = "X".to_string();
    w.header_value = "Y".to_string();
    w.add_header();
    w.remove_header();
    assert_eq!(pairs(&w.headers), before);
    assert_eq!(w.header_name, "");
    assert_eq!(w.header_value, "");
}

#[test]
fn clones_are_equal() {
    let r = request("a", "http://1");
    assert_eq!(r.clone(), r);
    let mut variables = im::Vector::new();
    variables.push_back(("k".to_string(), "v".to_string()));
    let c = Collection { name: "c".to_string(), variables };
    let d = c.clone();
    assert_eq!(d, c);
    assert_eq!(pairs(&d.variables), vec![("k".to_string(), "v".to_string())]);
}
