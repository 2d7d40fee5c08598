//! The request interpreter: maps a query descriptor to exactly one response
//! decision, in the fixed precedence order not-modified, redirect, mime
//! resolution, status dispatch; and builds the full response for a decision.

use vstd::prelude::*;
use crate::codec::EncodeFault;
use crate::codec::encode_blank_image;
use crate::codec::encode_ok;
use crate::codec::encoded_image_bytes;
use crate::codec::format_tag;
use crate::mime::ImageFormat;
use crate::mime::content_type_chars;
use crate::mime::content_type_string;
use crate::mime::format_of_mime;
use crate::mime::parse_format;
use crate::query::ImageServerQuery;
use crate::query::QueryView;
use crate::query::decrement_redirect;
use crate::query::server_url_chars;
use crate::stream::ByteStream;

verus! {

/// The fixed timestamp the `last_modified` parameter is compared against: a
/// value above it simulates an unchanged resource.
pub const THRESHOLD_304: i64 = 0;

/// The one behavior chosen for a request.
pub enum Decision {
    /// Simulated cache validation: respond 304 with an empty body.
    NotModified,
    /// One hop of a redirect chain: respond 308 with this `Location`.
    Redirect(String),
    /// A client-input error: respond 400 with this text body.
    BadRequest(String),
    /// Serve a freshly encoded image of these dimensions.
    Image(ImageFormat, u32, u32),
    /// Respond with exactly this simulated status and an empty body.
    Passthrough(u16),
}

/// The abstract value of a [`Decision`].
pub enum DecisionView {
    NotModified,
    Redirect(Seq<char>),
    BadRequest(Seq<char>),
    Image(ImageFormat, u32, u32),
    Passthrough(u16),
}

impl View for Decision {
    type V = DecisionView;

    open spec fn view(&self) -> DecisionView {
        match self {
            Decision::NotModified => DecisionView::NotModified,
            Decision::Redirect(loc) => DecisionView::Redirect(loc@),
            Decision::BadRequest(text) => DecisionView::BadRequest(text@),
            Decision::Image(f, w, h) => DecisionView::Image(*f, *w, *h),
            Decision::Passthrough(s) => DecisionView::Passthrough(*s),
        }
    }
}

/// Whether the not-modified simulation fires: `last_modified` present and
/// above the threshold.
pub open spec fn triggers_not_modified(q: QueryView) -> bool {
    q.last_modified matches Some(v) && v > THRESHOLD_304
}

/// Whether the redirect simulation fires: `redirect` present with hops left.
pub open spec fn triggers_redirect(q: QueryView) -> bool {
    q.redirect matches Some(n) && n > 0
}

/// The `mime` value to interpret: the parameter, or `PNG` when absent.
pub open spec fn resolved_mime(q: QueryView) -> Seq<char> {
    match q.mime {
        Some(m) => m,
        None => "PNG"@,
    }
}

/// The width to draw: the parameter, or 100 when absent.
pub open spec fn resolved_width(q: QueryView) -> u32 {
    match q.width {
        Some(w) => w,
        None => 100,
    }
}

/// The height to draw: the parameter, or 100 when absent.
pub open spec fn resolved_height(q: QueryView) -> u32 {
    match q.height {
        Some(h) => h,
        None => 100,
    }
}

/// The status to dispatch on: the parameter, or 200 when absent.
pub open spec fn resolved_status(q: QueryView) -> u16 {
    match q.status {
        Some(s) => s,
        None => 200,
    }
}

/// The decision once neither short-circuit fires: an unsupported `mime` is
/// a 400, then the status picks image generation (200), the deliberately
/// unsupported 3xx range (400), a verbatim 4xx/5xx, or a generic 400.
pub open spec fn content_decision(q: QueryView) -> DecisionView {
    match format_of_mime(resolved_mime(q)) {
        None => DecisionView::BadRequest("Not implemented for the mime type"@),
        Some(f) => {
            let status = resolved_status(q);
            if status == 200 {
                DecisionView::Image(f, resolved_width(q), resolved_height(q))
            } else if 300 <= status && status <= 399 {
                DecisionView::BadRequest("300 Status Code is NOT supported"@)
            } else if 400 <= status && status <= 599 {
                DecisionView::Passthrough(status)
            } else {
                DecisionView::BadRequest("Cannot recognize the status code"@)
            }
        },
    }
}

/// The one decision for a request: not-modified first, then redirect, then
/// everything that depends on mime and status.
pub open spec fn decision_of(q: QueryView, port: u16) -> DecisionView {
    if triggers_not_modified(q) {
        DecisionView::NotModified
    } else if triggers_redirect(q) {
        DecisionView::Redirect(server_url_chars(decrement_redirect(q), port))
    } else {
        content_decision(q)
    }
}

/// Interprets the query into its one decision. `port` is the port this
/// server is bound to, used only to build a redirect's `Location` target.
pub fn decide(query: &ImageServerQuery, port: u16) -> (d: Decision)
    ensures
        d@ == decision_of(query@, port),
{
    if let Some(v) = query.last_modified {
        if v > THRESHOLD_304 {
            return Decision::NotModified;
        }
    }
    if let Some(n) = query.redirect {
        if n > 0 {
            return Decision::Redirect(crate::query::make_redirect_test_server_url(query, port));
        }
    }
    let format = match &query.mime {
        Some(m) => parse_format(m.as_str()),
        None => parse_format("PNG"),
    };
    match format {
        None => Decision::BadRequest("Not implemented for the mime type".to_owned()),
        Some(f) => {
            let status: u16 = match query.status {
                Some(s) => s,
                None => 200,
            };
            if status == 200 {
                let width = match query.width {
                    Some(w) => w,
                    None => 100,
                };
                let height = match query.height {
                    Some(h) => h,
                    None => 100,
                };
                Decision::Image(f, width, height)
            } else if 300 <= status && status <= 399 {
                Decision::BadRequest("300 Status Code is NOT supported".to_owned())
            } else if 400 <= status && status <= 599 {
                Decision::Passthrough(status)
            } else {
                Decision::BadRequest("Cannot recognize the status code".to_owned())
            }
        },
    }
}

/// A response body: nothing, plain text, or a chunked byte stream.
pub enum Body {
    Empty,
    Text(String),
    Stream(ByteStream),
}

/// The abstract value of a [`Body`]; a stream is abstracted to the bytes it
/// will deliver.
pub enum BodyView {
    Empty,
    Text(Seq<char>),
    Stream(Seq<u8>),
}

impl View for Body {
    type V = BodyView;

    open spec fn view(&self) -> BodyView {
        match self {
            Body::Empty => BodyView::Empty,
            Body::Text(text) => BodyView::Text(text@),
            Body::Stream(stream) => BodyView::Stream(stream@),
        }
    }
}

/// Everything the HTTP layer needs to send for one request.
pub struct Response {
    pub status: u16,
    pub location: Option<String>,
    pub content_type: Option<String>,
    pub body: Body,
}

/// The abstract value of a [`Response`].
pub struct ResponseView {
    pub status: u16,
    pub location: Option<Seq<char>>,
    pub content_type: Option<Seq<char>>,
    pub body: BodyView,
}

impl View for Response {
    type V = ResponseView;

    open spec fn view(&self) -> ResponseView {
        ResponseView {
            status: self.status,
            location: match self.location {
                Some(l) => Some(l@),
                None => None,
            },
            content_type: match self.content_type {
                Some(c) => Some(c@),
                None => None,
            },
            body: self.body@,
        }
    }
}

/// The response owed for a request: exactly one shape for each decision.
pub open spec fn response_matches(q: QueryView, port: u16, r: ResponseView) -> bool {
    match decision_of(q, port) {
        DecisionView::NotModified => r == (ResponseView {
            status: 304,
            location: None,
            content_type: None,
            body: BodyView::Empty,
        }),
        DecisionView::Redirect(loc) => r == (ResponseView {
            status: 308,
            location: Some(loc),
            content_type: None,
            body: BodyView::Empty,
        }),
        DecisionView::BadRequest(text) => r == (ResponseView {
            status: 400,
            location: None,
            content_type: None,
            body: BodyView::Text(text),
        }),
        DecisionView::Image(f, w, h) => r == (ResponseView {
            status: 200,
            location: None,
            content_type: Some(content_type_chars(f)),
            body: BodyView::Stream(encoded_image_bytes(w, h, format_tag(f))),
        }),
        DecisionView::Passthrough(s) => r == (ResponseView {
            status: s,
            location: None,
            content_type: None,
            body: BodyView::Empty,
        }),
    }
}

/// Whether a decision's image, if it asks for one, fits the pixel buffer
/// the codec can allocate. The HTTP layer must check this before asking for
/// the response.
pub fn decision_within_limit(d: &Decision) -> (r: bool)
    ensures
        r == (d@ matches DecisionView::Image(f, w, h) ==> w * h * 3 <= usize::MAX),
{
    match d {
        Decision::Image(_, w, h) => {
            proof {
                assert((*w as u128) * (*h as u128) * 3 <= u128::MAX) by (nonlinear_arith);
            }
            (*w as u128) * (*h as u128) * 3 <= usize::MAX as u128
        },
        _ => true,
    }
}

/// Handles one request end to end: decides, and for an image decision
/// encodes the canvas and wraps it as a chunked stream. Fails only when the
/// image codec fails, which is terminal for the request.
pub fn handle_request(query: &ImageServerQuery, port: u16) -> (r: Result<Response, EncodeFault>)
    requires
        decision_of(query@, port) matches DecisionView::Image(f, w, h) ==> w * h * 3
            <= usize::MAX,
    ensures
        r matches Ok(resp) ==> response_matches(query@, port, resp@),
        r is Err <==> (decision_of(query@, port) matches DecisionView::Image(f, w, h)
            && !encode_ok(w, h, format_tag(f))),
{
    let d = decide(query, port);
    match d {
        Decision::NotModified => Ok(
            Response { status: 304, location: None, content_type: None, body: Body::Empty },
        ),
        Decision::Redirect(loc) => Ok(
            Response { status: 308, location: Some(loc), content_type: None, body: Body::Empty },
        ),
        Decision::BadRequest(text) => Ok(
            Response {
                status: 400,
                location: None,
                content_type: None,
                body: Body::Text(text),
            },
        ),
        Decision::Passthrough(s) => Ok(
            Response { status: s, location: None, content_type: None, body: Body::Empty },
        ),
        Decision::Image(f, w, h) => match encode_blank_image(w, h, f) {
            Ok(bytes) => Ok(
                Response {
                    status: 200,
                    location: None,
                    content_type: Some(content_type_string(f)),
                    body: Body::Stream(ByteStream::new(bytes)),
                },
            ),
            Err(fault) => Err(fault),
        },
    }
}

} // verus!
