//! The behavioral guarantees of the request interpreter, stated once over
//! all inputs: each lemma fixes the response shape that one class of
//! requests is owed.

use vstd::prelude::*;
use crate::codec::encoded_image_bytes;
use crate::codec::format_tag;
use crate::decision::BodyView;
use crate::decision::DecisionView;
use crate::decision::ResponseView;
use crate::decision::THRESHOLD_304;
use crate::decision::content_decision;
use crate::decision::decision_of;
use crate::decision::resolved_mime;
use crate::decision::response_matches;
use crate::decision::triggers_not_modified;
use crate::decision::triggers_redirect;
use crate::mime::content_type_chars;
use crate::mime::format_of_mime;
use crate::query::QueryView;
use crate::query::decrement_redirect;
use crate::query::server_url_chars;

verus! {

/// A request that gives only dimensions and a supported encoding is served
/// the image: status 200, content type derived from the encoding, and a
/// body of exactly the encoded bytes for those dimensions and that
/// encoding.
pub proof fn lemma_image_request(q: QueryView, port: u16, r: ResponseView)
    requires
        q.mime matches Some(m) && format_of_mime(m) is Some,
        q.width is Some,
        q.height is Some,
        q.last_modified is None,
        q.redirect is None,
        q.status is None,
        response_matches(q, port, r),
    ensures
        r.status == 200,
        r.content_type == Some(content_type_chars(format_of_mime(q.mime->0)->0)),
        r.body == BodyView::Stream(
            encoded_image_bytes(q.width->0, q.height->0, format_tag(format_of_mime(q.mime->0)->0)),
        ),
        r.location is None,
{
}

/// Any present `last_modified` above the threshold is answered 304 with an
/// empty body, whatever the other parameters say.
pub proof fn lemma_not_modified(q: QueryView, port: u16, r: ResponseView)
    requires
        q.last_modified matches Some(v) && v > THRESHOLD_304,
        response_matches(q, port, r),
    ensures
        r.status == 304,
        r.body is Empty,
        r.location is None,
{
}

/// Any positive `redirect` count, on a request the not-modified rule lets
/// through, is answered 308; the `Location` target carries the same
/// parameters with the count lowered by one.
pub proof fn lemma_redirect(q: QueryView, port: u16, r: ResponseView)
    requires
        !triggers_not_modified(q),
        q.redirect matches Some(n) && n > 0,
        response_matches(q, port, r),
    ensures
        r.status == 308,
        r.body is Empty,
        r.location == Some(server_url_chars(decrement_redirect(q), port)),
        decrement_redirect(q).redirect == Some((q.redirect->0 - 1) as u32),
        decrement_redirect(q).mime == q.mime,
        decrement_redirect(q).width == q.width,
        decrement_redirect(q).height == q.height,
        decrement_redirect(q).last_modified == q.last_modified,
        decrement_redirect(q).status == q.status,
{
}

/// With `redirect` absent or zero no redirect fires: the decision is never
/// a redirect and, unless the not-modified rule fires first, evaluation
/// proceeds to mime and status resolution.
pub proof fn lemma_no_redirect(q: QueryView, port: u16)
    requires
        q.redirect is None || q.redirect == Some(0u32),
    ensures
        !(decision_of(q, port) is Redirect),
        !triggers_not_modified(q) ==> decision_of(q, port) == content_decision(q),
{
}

/// An unsupported `mime` value, on a request neither short-circuit claims,
/// is answered 400 with the fixed explanatory body, whatever the
/// dimensions and status say.
pub proof fn lemma_bad_mime(q: QueryView, port: u16, r: ResponseView)
    requires
        !triggers_not_modified(q),
        !triggers_redirect(q),
        format_of_mime(resolved_mime(q)) is None,
        response_matches(q, port, r),
    ensures
        r.status == 400,
        r.body == BodyView::Text("Not implemented for the mime type"@),
{
}

/// A `status` in the 3xx range, with a supported `mime` and neither
/// short-circuit, is deliberately refused: 400 with the fixed body.
pub proof fn lemma_3xx_refused(q: QueryView, port: u16, r: ResponseView)
    requires
        !triggers_not_modified(q),
        !triggers_redirect(q),
        format_of_mime(resolved_mime(q)) is Some,
        q.status matches Some(s) && 300 <= s <= 399,
        response_matches(q, port, r),
    ensures
        r.status == 400,
        r.body == BodyView::Text("300 Status Code is NOT supported"@),
{
}

/// A `status` in the 4xx or 5xx range, with a supported `mime` and neither
/// short-circuit, is passed through verbatim with an empty body.
pub proof fn lemma_status_passthrough(q: QueryView, port: u16, r: ResponseView)
    requires
        !triggers_not_modified(q),
        !triggers_redirect(q),
        format_of_mime(resolved_mime(q)) is Some,
        q.status matches Some(s) && 400 <= s <= 599,
        response_matches(q, port, r),
    ensures
        r.status == q.status->0,
        r.body is Empty,
        r.location is None,
        r.content_type is None,
{
}

} // verus!

