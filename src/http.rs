//! The HTTP request model: methods, query pairs, headers, and the rendering
//! of a query into the text of a URL.
use vstd::prelude::*;
use vstd::string::StringExecFns;

verus! {

/// HTTP methods used by the endpoints.
#[derive(Clone, Copy, Debug, PartialEq, Eq, Structural)]
pub enum Method {
    Get,
    Post,
    Put,
    Patch,
    Delete,
}

/// One `name=value` pair of a query string, before encoding.
#[derive(Clone, Debug)]
pub struct QueryPair {
    pub name: String,
    pub value: String,
}

impl View for QueryPair {
    type V = (Seq<char>, Seq<char>);

    open spec fn view(&self) -> (Seq<char>, Seq<char>) {
        (self.name@, self.value@)
    }
}

/// A request header.
#[derive(Clone, Debug)]
pub struct Header {
    pub name: String,
    pub value: String,
}

impl View for Header {
    type V = (Seq<char>, Seq<char>);

    open spec fn view(&self) -> (Seq<char>, Seq<char>) {
        (self.name@, self.value@)
    }
}

/// An optional query parameter: a name, and a value when one was given.
#[derive(Clone, Debug)]
pub struct QueryParam {
    pub name: String,
    pub value: Option<String>,
}

impl View for QueryParam {
    type V = (Seq<char>, Option<Seq<char>>);

    open spec fn view(&self) -> (Seq<char>, Option<Seq<char>>) {
        (self.name@, opt_view(self.value))
    }
}

/// A request, fully described: method, URL with its encoded query, the query
/// pairs before encoding, headers and body.
#[derive(Clone, Debug)]
pub struct HttpRequest {
    pub method: Method,
    pub url: String,
    pub query: Vec<QueryPair>,
    pub headers: Vec<Header>,
    pub body: Vec<u8>,
}

pub open spec fn opt_view(o: Option<String>) -> Option<Seq<char>> {
    match o {
        Some(s) => Some(s@),
        None => None,
    }
}

/// The optional parameter `name`, with the text of `value` when there is one.
pub fn text_param(name: &str, value: &Option<String>) -> (r: QueryParam)
    ensures
        r@ == (name@, opt_view(*value)),
{
    let v = match value {
        Some(s) => Some(s.clone()),
        None => None,
    };
    QueryParam { name: name.to_owned(), value: v }
}

/// The optional parameter `name`, with `true` or `false` when there is a value.
pub fn bool_param(name: &str, value: Option<bool>) -> (r: QueryParam)
    ensures
        r@ == (name@, bool_opt_text(value)),
{
    let v = match value {
        Some(b) => Some(format_bool(b)),
        None => None,
    };
    QueryParam { name: name.to_owned(), value: v }
}

/// The optional parameter `name`, with the decimal text of the value when
/// there is one.
pub fn int_param(name: &str, value: Option<i32>) -> (r: QueryParam)
    ensures
        r@ == (name@, int_opt_text(value)),
{
    let v = match value {
        Some(n) => Some(format_i32(n)),
        None => None,
    };
    QueryParam { name: name.to_owned(), value: v }
}

pub open spec fn bool_opt_text(o: Option<bool>) -> Option<Seq<char>> {
    match o {
        Some(b) => Some(bool_text(b)),
        None => None,
    }
}

pub open spec fn int_opt_text(o: Option<i32>) -> Option<Seq<char>> {
    match o {
        Some(n) => Some(decimal(n as int)),
        None => None,
    }
}

pub open spec fn params_view(q: Seq<QueryParam>) -> Seq<(Seq<char>, Option<Seq<char>>)> {
    q.map_values(|p: QueryParam| p@)
}

pub open spec fn pairs_view(q: Seq<QueryPair>) -> Seq<(Seq<char>, Seq<char>)> {
    q.map_values(|p: QueryPair| p@)
}

pub open spec fn headers_view(h: Seq<Header>) -> Seq<(Seq<char>, Seq<char>)> {
    h.map_values(|x: Header| x@)
}

/// What `application/x-www-form-urlencoded` serialization makes of a text.
pub uninterp spec fn form_encoded(s: Seq<char>) -> Seq<char>;

/// Relies on `url::form_urlencoded::byte_serialize`, the encoder that
/// `Url::query_pairs_mut().append_pair` applies to names and values: its
/// output depends on the bytes of the input alone.
#[verifier::external_body]
fn form_encode(s: &str) -> (r: String)
    ensures
        r@ == form_encoded(s@),
{
    url::form_urlencoded::byte_serialize(s.as_bytes()).collect()
}

/// One encoded pair of a query string: `name=value`.
pub open spec fn encoded_pair(p: (Seq<char>, Seq<char>)) -> Seq<char> {
    form_encoded(p.0) + seq!['='] + form_encoded(p.1)
}

/// The query string for a sequence of pairs, joined by `&`.
pub open spec fn query_string(ps: Seq<(Seq<char>, Seq<char>)>) -> Seq<char>
    decreases ps.len(),
{
    if ps.len() == 0 {
        seq![]
    } else if ps.len() == 1 {
        encoded_pair(ps[0])
    } else {
        query_string(ps.drop_last()) + seq!['&'] + encoded_pair(ps.last())
    }
}

/// Appends `?` and the encoded query to `url`.
pub fn append_query(url: &mut String, query: &Vec<QueryPair>)
    ensures
        final(url)@ == old(url)@ + seq!['?'] + query_string(pairs_view(query@)),
{
    proof {
        reveal_strlit("?");
    }
    url.append("?");
    let ghost start = url@;
    let mut i: usize = 0;
    while i < query.len()
        invariant
            i <= query.len(),
            url@ == start + query_string(pairs_view(query@).take(i as int)),
        decreases query.len() - i,
    {
        let ghost before = url@;
        proof {
            reveal_strlit("&");
            reveal_strlit("=");
        }
        if i > 0 {
            url.append("&");
        }
        let name = form_encode(query[i].name.as_str());
        let value = form_encode(query[i].value.as_str());
        url.append(name.as_str());
        url.append("=");
        url.append(value.as_str());
        proof {
            let ps = pairs_view(query@);
            let next = ps.take(i + 1);
            let enc = encoded_pair(ps[i as int]);
            assert(next.drop_last() == ps.take(i as int));
            assert(next.last() == ps[i as int]);
            assert(enc == name@ + seq!['='] + value@);
            if i == 0 {
                assert(url@ =~= before + enc);
                assert(ps.take(0) == Seq::<(Seq<char>, Seq<char>)>::empty());
                assert(next.len() == 1 && next[0] == ps[0]);
            } else {
                assert(url@ =~= before + seq!['&'] + enc);
            }
            assert(url@ =~= start + query_string(next));
        }
        i = i + 1;
    }
    proof {
        assert(pairs_view(query@).take(query.len() as int) == pairs_view(query@));
    }
}

/// The decimal digit for `d`.
pub open spec fn digit_char(d: nat) -> char {
    if d == 0 { '0' }
    else if d == 1 { '1' }
    else if d == 2 { '2' }
    else if d == 3 { '3' }
    else if d == 4 { '4' }
    else if d == 5 { '5' }
    else if d == 6 { '6' }
    else if d == 7 { '7' }
    else if d == 8 { '8' }
    else { '9' }
}

/// The decimal digits of a natural number, most significant first.
pub open spec fn digits(n: nat) -> Seq<char>
    decreases n,
{
    if n < 10 {
        seq![digit_char(n)]
    } else {
        digits(n / 10).push(digit_char(n % 10))
    }
}

/// The decimal text of an integer, with a leading `-` when it is negative.
pub open spec fn decimal(n: int) -> Seq<char> {
    if n < 0 {
        seq!['-'] + digits((-n) as nat)
    } else {
        digits(n as nat)
    }
}

/// The text of a boolean in a query: `true` or `false`.
pub open spec fn bool_text(b: bool) -> Seq<char> {
    if b {
        seq!['t', 'r', 'u', 'e']
    } else {
        seq!['f', 'a', 'l', 's', 'e']
    }
}

fn digit_str(d: u32) -> (r: &'static str)
    requires
        d < 10,
    ensures
        r@ == seq![digit_char(d as nat)],
{
    proof {
        reveal_strlit("0");
        reveal_strlit("1");
        reveal_strlit("2");
        reveal_strlit("3");
        reveal_strlit("4");
        reveal_strlit("5");
        reveal_strlit("6");
        reveal_strlit("7");
        reveal_strlit("8");
        reveal_strlit("9");
    }
    match d {
        0 => "0",
        1 => "1",
        2 => "2",
        3 => "3",
        4 => "4",
        5 => "5",
        6 => "6",
        7 => "7",
        8 => "8",
        _ => "9",
    }
}

fn append_digits(s: &mut String, n: u32)
    ensures
        final(s)@ == old(s)@ + digits(n as nat),
    decreases n,
{
    if n >= 10 {
        append_digits(s, n / 10);
    }
    let d = digit_str(n % 10);
    s.append(d);
    proof {
        if n >= 10 {
            assert(final(s)@ =~= old(s)@ + digits(n as nat));
        } else {
            assert(final(s)@ =~= old(s)@ + digits(n as nat));
        }
    }
}

/// Formats an `i32` in decimal, as `Display` does.
pub fn format_i32(n: i32) -> (r: String)
    ensures
        r@ == decimal(n as int),
{
    let mut s = String::new();
    if n < 0 {
        proof {
            reveal_strlit("-");
        }
        s.append("-");
        let m: u32 = (0i64 - n as i64) as u32;
        append_digits(&mut s, m);
    } else {
        append_digits(&mut s, n as u32);
    }
    proof {
        assert(s@ =~= decimal(n as int));
    }
    s
}

/// Formats a boolean as `true` or `false`, as `Display` does.
pub fn format_bool(b: bool) -> (r: String)
    ensures
        r@ == bool_text(b),
{
    proof {
        reveal_strlit("true");
        reveal_strlit("false");
    }
    if b {
        "true".to_owned()
    } else {
        "false".to_owned()
    }
}

} // verus!
