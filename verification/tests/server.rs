use image::GenericImageView;
use image_server::ImageServerQuery;
use image_server::decision::Body;
use image_server::decision::Decision;
use image_server::decision::Response;
use image_server::decision::decision_within_limit;
use image_server::handle_request;
use image_server::stream::ByteStream;

const PORT: u16 = 4000;

fn bare_query() -> ImageServerQuery {
    ImageServerQuery {
        mime: None,
        width: None,
        height: None,
        last_modified: None,
        redirect: None,
        status: None,
    }
}

fn drain(mut stream: ByteStream) -> Vec<u8> {
    let mut bytes = Vec::new();
    while let Some(chunk) = stream.next_chunk() {
        assert!(!chunk.is_empty());
        assert!(chunk.len() <= 4096);
        bytes.extend_from_slice(&chunk);
    }
    bytes
}

fn body_bytes(r: Response) -> Vec<u8> {
    match r.body {
        Body::Stream(stream) => drain(stream),
        _ => panic!("expected a streamed body"),
    }
}

fn assert_empty_body(r: &Response) {
    assert!(matches!(r.body, Body::Empty));
}

#[test]
fn test_basic_image() {
    let mut q = bare_query();
    q.width = Some(500);
    q.height = Some(500);
    q.mime = Some("png".to_string());
    let res = handle_request(&q, PORT).unwrap();
    assert_eq!(res.status, 200);
    assert_eq!(res.content_type.as_deref(), Some("image/png"));
    let body = body_bytes(res);
    assert_eq!(image::guess_format(&body).unwrap(), image::ImageFormat::Png);
    let img = image::load_from_memory(&body).unwrap();
    assert_eq!(img.dimensions(), (500, 500));
}

#[test]
fn test_304() {
    let mut q = bare_query();
    q.last_modified = Some(1);
    let res = handle_request(&q, PORT).unwrap();
    assert_eq!(res.status, 304);
    assert_empty_body(&res);
}

#[test]
fn test_redirect() {
    let mut q = bare_query();
    q.redirect = Some(1);
    let res = handle_request(&q, PORT).unwrap();
    assert_eq!(res.status, 308);
    assert_empty_body(&res);
    assert_eq!(
        res.location.as_deref(),
        Some("http://127.0.0.1:4000/api/image?redirect=0")
    );
    // Following the Location target means serving its query: redirect is
    // exhausted, so the default 100 x 100 PNG comes back with a 200.
    let mut next = bare_query();
    next.redirect = Some(0);
    let followed = handle_request(&next, PORT).unwrap();
    assert_eq!(followed.status, 200);
    assert_eq!(followed.content_type.as_deref(), Some("image/png"));
    let body = body_bytes(followed);
    assert_eq!(image::guess_format(&body).unwrap(), image::ImageFormat::Png);
    let img = image::load_from_memory(&body).unwrap();
    assert_eq!(img.dimensions(), (100, 100));
}

#[test]
fn every_supported_encoding_round_trips() {
    let cases: Vec<(&str, image::ImageFormat, &str)> = vec![
        ("png", image::ImageFormat::Png, "image/png"),
        ("jpeg", image::ImageFormat::Jpeg, "image/jpeg"),
        ("jpg", image::ImageFormat::Jpeg, "image/jpeg"),
        ("gif", image::ImageFormat::Gif, "image/gif"),
        ("ico", image::ImageFormat::Ico, "image/ico"),
    ];
    for (mime, expected_format, expected_content_type) in cases {
        let mut q = bare_query();
        q.width = Some(64);
        q.height = Some(48);
        q.mime = Some(mime.to_string());
        let res = handle_request(&q, PORT).unwrap();
        assert_eq!(res.status, 200);
        assert_eq!(res.content_type.as_deref(), Some(expected_content_type));
        let body = body_bytes(res);
        assert_eq!(image::guess_format(&body).unwrap(), expected_format);
        if expected_format == image::ImageFormat::Ico {
            // The codec cannot decode its own RGB-encoded ICO back, so read
            // the dimensions from the ICO directory entry instead.
            assert_eq!(body[6], 64);
            assert_eq!(body[7], 48);
        } else {
            let img = image::load_from_memory(&body).unwrap();
            assert_eq!(img.dimensions(), (64, 48));
        }
    }
}

#[test]
fn mime_matching_ignores_ascii_case() {
    for mime in ["PnG", "JPEG", "Jpg", "GIF", "iCo"] {
        let mut q = bare_query();
        q.mime = Some(mime.to_string());
        let res = handle_request(&q, PORT).unwrap();
        assert_eq!(res.status, 200);
    }
}

#[test]
fn unsupported_mime_is_bad_request() {
    let mut q = bare_query();
    q.mime = Some("webp".to_string());
    q.width = Some(500);
    q.status = Some(503);
    let res = handle_request(&q, PORT).unwrap();
    assert_eq!(res.status, 400);
    match res.body {
        Body::Text(text) => assert_eq!(text, "Not implemented for the mime type"),
        _ => panic!("expected a text body"),
    }
}

#[test]
fn status_3xx_is_refused() {
    let mut q = bare_query();
    q.status = Some(301);
    let res = handle_request(&q, PORT).unwrap();
    assert_eq!(res.status, 400);
    match res.body {
        Body::Text(text) => assert_eq!(text, "300 Status Code is NOT supported"),
        _ => panic!("expected a text body"),
    }
}

#[test]
fn status_4xx_5xx_pass_through() {
    for status in [400u16, 404, 499, 500, 503, 599] {
        let mut q = bare_query();
        q.status = Some(status);
        let res = handle_request(&q, PORT).unwrap();
        assert_eq!(res.status, status);
        assert_empty_body(&res);
    }
}

#[test]
fn unrecognized_status_is_bad_request() {
    for status in [100u16, 250, 600, 65535] {
        let mut q = bare_query();
        q.status = Some(status);
        let res = handle_request(&q, PORT).unwrap();
        assert_eq!(res.status, 400);
        match res.body {
            Body::Text(text) => assert_eq!(text, "Cannot recognize the status code"),
            _ => panic!("expected a text body"),
        }
    }
}

#[test]
fn not_modified_takes_precedence() {
    let mut q = bare_query();
    q.last_modified = Some(7);
    q.redirect = Some(5);
    q.mime = Some("nonsense".to_string());
    q.status = Some(301);
    let res = handle_request(&q, PORT).unwrap();
    assert_eq!(res.status, 304);
    assert_empty_body(&res);
}

#[test]
fn last_modified_at_threshold_does_not_fire() {
    let mut q = bare_query();
    q.last_modified = Some(0);
    let res = handle_request(&q, PORT).unwrap();
    assert_eq!(res.status, 200);
}

#[test]
fn redirect_takes_precedence_over_status() {
    let mut q = bare_query();
    q.redirect = Some(3);
    q.status = Some(404);
    let res = handle_request(&q, PORT).unwrap();
    assert_eq!(res.status, 308);
    assert_eq!(
        res.location.as_deref(),
        Some("http://127.0.0.1:4000/api/image?redirect=2&status=404")
    );
}

#[test]
fn redirect_zero_falls_through() {
    let mut q = bare_query();
    q.redirect = Some(0);
    q.status = Some(404);
    let res = handle_request(&q, PORT).unwrap();
    assert_eq!(res.status, 404);
    assert_empty_body(&res);
}

#[test]
fn decision_limit_rejects_huge_canvas() {
    let mut q = bare_query();
    q.width = Some(u32::MAX);
    q.height = Some(u32::MAX);
    let d = image_server::decide(&q, PORT);
    assert!(!decision_within_limit(&d));
    let ok = image_server::decide(&bare_query(), PORT);
    assert!(decision_within_limit(&ok));
    assert!(matches!(ok, Decision::Image(_, 100, 100)));
}
