use atticus::request_methods::Method;
use atticus::response_tabs::{tab_at, tabs, Tab};

#[test]
fn method_names_are_their_capitals() {
    assert_eq!(Method::GET.to_string(), "GET");
    assert_eq!(Method::POST.to_string(), "POST");
    assert_eq!(Method::HEAD.to_string(), "HEAD");
    assert_eq!(Method::DELETE.to_string(), "DELETE");
    assert_eq!(Method::PUT.to_string(), "PUT");
    assert_eq!(Method::PATCH.to_string(), "PATCH");
}

#[test]
fn methods_are_offered_in_order() {
    assert_eq!(
        Method::all(),
        vec![Method::GET, Method::POST, Method::HEAD, Method::DELETE, Method::PUT, Method::PATCH]
    );
}

#[test]
fn method_names_differ() {
    let all = Method::all();
    for (i, a) in all.iter().enumerate() {
        for (j, b) in all.iter().enumerate() {
            if i != j {
                assert_ne!(a.to_string(), b.to_string());
            }
        }
    }
}

#[test]
fn body_goes_with_post_put_patch_only() {
    assert!(!Method::GET.carries_body());
    assert!(Method::POST.carries_body());
    assert!(!Method::HEAD.carries_body());
    assert!(!Method::DELETE.carries_body());
    assert!(Method::PUT.carries_body());
    assert!(Method::PATCH.carries_body());
}

#[test]
fn patch_goes_out_as_put() {
    assert_eq!(Method::PATCH.wire(), Method::PUT);
    assert_eq!(Method::GET.wire(), Method::GET);
    assert_eq!(Method::POST.wire(), Method::POST);
    assert_eq!(Method::HEAD.wire(), Method::HEAD);
    assert_eq!(Method::DELETE.wire(), Method::DELETE);
    assert_eq!(Method::PUT.wire(), Method::PUT);
}

#[test]
fn tab_captions() {
    assert_eq!(Tab::Response.to_string(), "Response");
    assert_eq!(Tab::Headers.to_string(), "Headers");
    assert_eq!(Tab::Stats.to_string(), "Stats");
}

#[test]
fn tab_bar_order_and_positions() {
    assert_eq!(tabs(), vec![Tab::Response, Tab::Headers, Tab::Stats]);
    assert_eq!(Tab::Response.position(), 0);
    assert_eq!(Tab::Headers.position(), 1);
    assert_eq!(Tab::Stats.position(), 2);
}

#[test]
fn active_position_selects_tab() {
    assert_eq!(tab_at(0), Some(Tab::Response));
    assert_eq!(tab_at(1), Some(Tab::Headers));
    assert_eq!(tab_at(2), Some(Tab::Stats));
    assert_eq!(tab_at(3), None);
    assert_eq!(tab_at(usize::MAX), None);
}

#[test]
fn tab_position_roundtrip() {
    for t in tabs() {
        assert_eq!(tab_at(t.position()), Some(t));
    }
    for p in 0..3 {
        assert_eq!(tab_at(p).unwrap().position(), p);
    }
}
