//! The request descriptor for `GET /api/image` and the URL helpers built on
//! it: rendering the descriptor back into a query string, and building the
//! `Location` target of a redirect response.

use vstd::prelude::*;
use vstd::string::StringExecFns;

verus! {

/// The abstract value of an [`ImageServerQuery`]: the same six optional
/// parameters, with strings taken as character sequences.
pub struct QueryView {
    pub mime: Option<Seq<char>>,
    pub width: Option<u32>,
    pub height: Option<u32>,
    pub last_modified: Option<i64>,
    pub redirect: Option<u32>,
    pub status: Option<u16>,
}

/// The request descriptor built from the query string of `GET /api/image`.
/// Every parameter is optional; absent ones fall back to fixed defaults
/// during interpretation.
#[derive(Debug)]
pub struct ImageServerQuery {
    pub mime: Option<String>,
    pub width: Option<u32>,
    pub height: Option<u32>,
    pub last_modified: Option<i64>,
    pub redirect: Option<u32>,
    pub status: Option<u16>,
}

impl View for ImageServerQuery {
    type V = QueryView;

    open spec fn view(&self) -> QueryView {
        QueryView {
            mime: match self.mime {
                Some(m) => Some(m@),
                None => None,
            },
            width: self.width,
            height: self.height,
            last_modified: self.last_modified,
            redirect: self.redirect,
            status: self.status,
        }
    }
}

impl ImageServerQuery {
    /// Builds a descriptor with every parameter present.
    pub fn new(
        mime: &str,
        width: u32,
        height: u32,
        last_modified: i64,
        redirect: u32,
        status: u16,
    ) -> (q: Self)
        ensures
            q@ == (QueryView {
                mime: Some(mime@),
                width: Some(width),
                height: Some(height),
                last_modified: Some(last_modified),
                redirect: Some(redirect),
                status: Some(status),
            }),
    {
        Self {
            mime: Some(mime.to_owned()),
            width: Some(width),
            height: Some(height),
            last_modified: Some(last_modified),
            redirect: Some(redirect),
            status: Some(status),
        }
    }
}

/// The decimal digit character for a value below ten.
pub open spec fn dec_digit(d: nat) -> char {
    if d == 0 {
        '0'
    } else if d == 1 {
        '1'
    } else if d == 2 {
        '2'
    } else if d == 3 {
        '3'
    } else if d == 4 {
        '4'
    } else if d == 5 {
        '5'
    } else if d == 6 {
        '6'
    } else if d == 7 {
        '7'
    } else if d == 8 {
        '8'
    } else {
        '9'
    }
}

/// The usual decimal rendering of `n`, most significant digit first, with no
/// leading zeros (a single `'0'` for zero).
pub open spec fn dec_chars(n: nat) -> Seq<char>
    decreases n,
{
    if n < 10 {
        seq![dec_digit(n)]
    } else {
        dec_chars(n / 10).push(dec_digit(n % 10))
    }
}

fn digit_str(d: u32) -> (s: &'static str)
    requires
        d < 10,
    ensures
        s@ == seq![dec_digit(d as nat)],
{
    let s: &'static str = if d == 0 {
        "0"
    } else if d == 1 {
        "1"
    } else if d == 2 {
        "2"
    } else if d == 3 {
        "3"
    } else if d == 4 {
        "4"
    } else if d == 5 {
        "5"
    } else if d == 6 {
        "6"
    } else if d == 7 {
        "7"
    } else if d == 8 {
        "8"
    } else {
        "9"
    };
    proof {
        reveal_strlit("0");
        reveal_strlit("1");
        reveal_strlit("2");
        reveal_strlit("3");
        reveal_strlit("4");
        reveal_strlit("5");
        reveal_strlit("6");
        reveal_strlit("7");
        reveal_strlit("8");
        reveal_strlit("9");
        assert(s@ =~= seq![dec_digit(d as nat)]);
    }
    s
}

/// Renders `n` in decimal.
fn u32_to_dec(n: u32) -> (s: String)
    ensures
        s@ == dec_chars(n as nat),
    decreases n,
{
    if n < 10 {
        digit_str(n).to_owned()
    } else {
        let mut s = u32_to_dec(n / 10);
        s.append(digit_str(n % 10));
        proof {
            assert(s@ =~= dec_chars((n / 10) as nat).push(dec_digit((n % 10) as nat)));
        }
        s
    }
}

/// The `name=value` pieces of the query string, one for each parameter that
/// is present, in the fixed order mime, width, height, last_modified,
/// redirect, status.
pub open spec fn query_params(q: QueryView) -> Seq<Seq<char>> {
    let ps = Seq::<Seq<char>>::empty();
    let ps = match q.mime {
        Some(m) => ps.push("mime="@ + m),
        None => ps,
    };
    let ps = match q.width {
        Some(w) => ps.push("width="@ + dec_chars(w as nat)),
        None => ps,
    };
    let ps = match q.height {
        Some(h) => ps.push("height="@ + dec_chars(h as nat)),
        None => ps,
    };
    let ps = match q.last_modified {
        Some(l) => ps.push("last_modified="@ + dec_chars_i64(l)),
        None => ps,
    };
    let ps = match q.redirect {
        Some(r) => ps.push("redirect="@ + dec_chars(r as nat)),
        None => ps,
    };
    let ps = match q.status {
        Some(s) => ps.push("status="@ + dec_chars(s as nat)),
        None => ps,
    };
    ps
}

/// The decimal rendering of a signed value: a minus sign before the digits
/// when it is negative.
pub open spec fn dec_chars_i64(n: i64) -> Seq<char> {
    if n < 0 {
        "-"@ + dec_chars((-(n as int)) as nat)
    } else {
        dec_chars(n as nat)
    }
}

/// The pieces joined with `'&'` between them.
pub open spec fn join_amp(ps: Seq<Seq<char>>) -> Seq<char>
    decreases ps.len(),
{
    if ps.len() == 0 {
        Seq::empty()
    } else if ps.len() == 1 {
        ps[0]
    } else {
        ps[0] + "&"@ + join_amp(ps.drop_first())
    }
}

/// The full query string: empty when no parameter is present, else `'?'`
/// followed by the `'&'`-joined pieces.
pub open spec fn query_string_chars(q: QueryView) -> Seq<char> {
    let ps = query_params(q);
    if ps.len() == 0 {
        Seq::empty()
    } else {
        "?"@ + join_amp(ps)
    }
}

proof fn lemma_join_push(ps: Seq<Seq<char>>, p: Seq<char>)
    requires
        ps.len() >= 1,
    ensures
        join_amp(ps.push(p)) == join_amp(ps) + "&"@ + p,
    decreases ps.len(),
{
    if ps.len() == 1 {
        let q = ps.push(p);
        assert(q.drop_first() =~= seq![p]);
        assert(join_amp(q) == q[0] + "&"@ + join_amp(q.drop_first()));
        assert(join_amp(q.drop_first()) == seq![p][0]);
        assert(q[0] == ps[0]);
    } else {
        lemma_join_push(ps.drop_first(), p);
        assert(ps.push(p).drop_first() =~= ps.drop_first().push(p));
        assert(ps[0] + "&"@ + (join_amp(ps.drop_first()) + "&"@ + p) =~= (ps[0] + "&"@
            + join_amp(ps.drop_first())) + "&"@ + p);
    }
}

/// Appends one `name=value` piece to the query string under construction,
/// preceded by `'?'` for the first piece and by `'&'` for every later one.
fn emit_param(
    out: &mut String,
    any: bool,
    name: &str,
    value: &str,
    Ghost(ps): Ghost<Seq<Seq<char>>>,
) -> (gps: Ghost<Seq<Seq<char>>>)
    requires
        any <==> ps.len() >= 1,
        old(out)@ == if ps.len() == 0 {
            Seq::<char>::empty()
        } else {
            "?"@ + join_amp(ps)
        },
    ensures
        gps@ == ps.push(name@ + value@),
        final(out)@ == "?"@ + join_amp(gps@),
{
    if any {
        out.append("&");
    } else {
        out.append("?");
    }
    out.append(name);
    out.append(value);
    proof {
        if ps.len() >= 1 {
            lemma_join_push(ps, name@ + value@);
        }
        assert(out@ =~= "?"@ + join_amp(ps.push(name@ + value@)));
    }
    Ghost(ps.push(name@ + value@))
}

/// Renders a negative or non-negative `i64` in decimal.
fn i64_to_dec(n: i64) -> (s: String)
    ensures
        s@ == dec_chars_i64(n),
{
    if n < 0 {
        let mut s = String::from_str("-");
        let magnitude: u64 = (-(n as i128)) as u64;
        s.append(u64_to_dec(magnitude).as_str());
        proof {
            reveal_strlit("-");
            assert(s@ =~= dec_chars_i64(n));
        }
        s
    } else {
        u64_to_dec(n as u64)
    }
}

/// Renders `n` in decimal.
fn u64_to_dec(n: u64) -> (s: String)
    ensures
        s@ == dec_chars(n as nat),
    decreases n,
{
    if n < 10 {
        digit_str(n as u32).to_owned()
    } else {
        let mut s = u64_to_dec(n / 10);
        s.append(digit_str((n % 10) as u32));
        proof {
            assert(s@ =~= dec_chars((n / 10) as nat).push(dec_digit((n % 10) as nat)));
        }
        s
    }
}

impl ImageServerQuery {
    /// Renders the descriptor back into the query string it stands for:
    /// empty when no parameter is present, else `?` followed by
    /// `name=value` pairs joined with `&`, in the fixed parameter order.
    pub fn into_query_string(&self) -> (r: String)
        ensures
            r@ == query_string_chars(self@),
    {
        let mut out = String::new();
        let mut any: bool = false;
        let ghost mut ps: Seq<Seq<char>> = Seq::empty();
        if let Some(m) = &self.mime {
            let gps = emit_param(&mut out, any, "mime=", m.as_str(), Ghost(ps));
            any = true;
            proof {
                ps = gps@;
            }
        }
        if let Some(w) = self.width {
            let value = u32_to_dec(w);
            let gps = emit_param(&mut out, any, "width=", value.as_str(), Ghost(ps));
            any = true;
            proof {
                ps = gps@;
            }
        }
        if let Some(h) = self.height {
            let value = u32_to_dec(h);
            let gps = emit_param(&mut out, any, "height=", value.as_str(), Ghost(ps));
            any = true;
            proof {
                ps = gps@;
            }
        }
        if let Some(l) = self.last_modified {
            let value = i64_to_dec(l);
            let gps = emit_param(&mut out, any, "last_modified=", value.as_str(), Ghost(ps));
            any = true;
            proof {
                ps = gps@;
            }
        }
        if let Some(n) = self.redirect {
            let value = u32_to_dec(n);
            let gps = emit_param(&mut out, any, "redirect=", value.as_str(), Ghost(ps));
            any = true;
            proof {
                ps = gps@;
            }
        }
        if let Some(c) = self.status {
            let value = u32_to_dec(c as u32);
            let gps = emit_param(&mut out, any, "status=", value.as_str(), Ghost(ps));
            any = true;
            proof {
                ps = gps@;
            }
        }
        proof {
            assert(ps =~= query_params(self@));
        }
        out
    }
}

/// The absolute URL of the server's one endpoint with the given query.
pub open spec fn server_url_chars(q: QueryView, port: u16) -> Seq<char> {
    "http://127.0.0.1:"@ + dec_chars(port as nat) + "/api/image"@ + query_string_chars(q)
}

/// The same descriptor with the remaining-hop counter lowered by one.
pub open spec fn decrement_redirect(q: QueryView) -> QueryView {
    QueryView { redirect: Some((q.redirect->0 - 1) as u32), ..q }
}

/// Builds the URL under which the server, bound to `port` on loopback,
/// serves the given query.
pub fn make_test_server_url(query: &ImageServerQuery, port: u16) -> (r: String)
    ensures
        r@ == server_url_chars(query@, port),
{
    let mut out = String::from_str("http://127.0.0.1:");
    out.append(u32_to_dec(port as u32).as_str());
    out.append("/api/image");
    out.append(query.into_query_string().as_str());
    proof {
        assert(out@ =~= server_url_chars(query@, port));
    }
    out
}

/// Builds the `Location` target of one redirect hop: the same URL with the
/// `redirect` counter decremented and every other parameter unchanged.
pub fn make_redirect_test_server_url(query: &ImageServerQuery, port: u16) -> (r: String)
    requires
        query@.redirect matches Some(n) && n > 0,
    ensures
        r@ == server_url_chars(decrement_redirect(query@), port),
{
    let mime = match &query.mime {
        Some(m) => Some(m.clone()),
        None => None,
    };
    let new_query = ImageServerQuery {
        mime,
        width: query.width,
        height: query.height,
        last_modified: query.last_modified,
        redirect: Some(query.redirect.unwrap() - 1),
        status: query.status,
    };
    assert(new_query@ == decrement_redirect(query@));
    make_test_server_url(&new_query, port)
}

} // verus!
