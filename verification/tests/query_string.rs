use image_server::ImageServerQuery;
use image_server::make_redirect_test_server_url;
use image_server::make_test_server_url;

fn full_query() -> ImageServerQuery {
    ImageServerQuery {
        mime: Some("png".to_string()),
        width: Some(500),
        height: Some(500),
        last_modified: Some(3),
        redirect: Some(2),
        status: Some(200),
    }
}

#[test]
fn query_string_all_params() {
    let q = full_query();
    assert_eq!(
        q.into_query_string(),
        "?mime=png&width=500&height=500&last_modified=3&redirect=2&status=200"
    );
}

#[test]
fn query_string_empty() {
    let q = ImageServerQuery {
        mime: None,
        width: None,
        height: None,
        last_modified: None,
        redirect: None,
        status: None,
    };
    assert_eq!(q.into_query_string(), "");
}

#[test]
fn query_string_single_param() {
    let q = ImageServerQuery {
        mime: None,
        width: Some(7),
        height: None,
        last_modified: None,
        redirect: None,
        status: None,
    };
    assert_eq!(q.into_query_string(), "?width=7");
}

#[test]
fn query_string_negative_last_modified() {
    let q = ImageServerQuery {
        mime: None,
        width: None,
        height: None,
        last_modified: Some(-42),
        redirect: None,
        status: None,
    };
    assert_eq!(q.into_query_string(), "?last_modified=-42");
}

#[test]
fn new_sets_every_field() {
    let q = ImageServerQuery::new("gif", 20, 30, 5, 2, 404);
    assert_eq!(q.mime.as_deref(), Some("gif"));
    assert_eq!(q.width, Some(20));
    assert_eq!(q.height, Some(30));
    assert_eq!(q.last_modified, Some(5));
    assert_eq!(q.redirect, Some(2));
    assert_eq!(q.status, Some(404));
}

#[test]
fn server_url_carries_port_and_query() {
    let q = ImageServerQuery {
        mime: None,
        width: Some(9),
        height: None,
        last_modified: None,
        redirect: None,
        status: None,
    };
    assert_eq!(
        make_test_server_url(&q, 8080),
        "http://127.0.0.1:8080/api/image?width=9"
    );
}

#[test]
fn redirect_url_decrements_counter_only() {
    let q = full_query();
    assert_eq!(
        make_redirect_test_server_url(&q, 4000),
        "http://127.0.0.1:4000/api/image?mime=png&width=500&height=500&last_modified=3&redirect=1&status=200"
    );
}

#[test]
fn redirect_url_reaches_zero() {
    let q = ImageServerQuery {
        mime: None,
        width: None,
        height: None,
        last_modified: None,
        redirect: Some(1),
        status: None,
    };
    assert_eq!(
        make_redirect_test_server_url(&q, 4000),
        "http://127.0.0.1:4000/api/image?redirect=0"
    );
}
