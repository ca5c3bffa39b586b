//! The decision logic of the HTTP front end: which reply a request
//! ends in, with its exact bytes and headers, plus the plain-text dump
//! served by the info page.

use vstd::prelude::*;

verus! {

/// A reply body: plain text for every failure, encoded image bytes on
/// success.  The whole value is the body; nothing is streamed.
pub enum ReplyBody {
    Text(String),
    Bytes(Vec<u8>),
}

/// One terminal HTTP reply.
pub struct AdvertResponse {
    pub status: u16,
    pub content_type: String,
    pub body: ReplyBody,
}

/// The content type of every plain-text reply.
pub open spec fn plain_text_type() -> Seq<char> {
    "text/plain; charset=utf-8"@
}

/// The plain-text content type, as an owned value.
pub fn plain_text_content_type() -> (r: String)
    ensures
        r@ == plain_text_type(),
{
    String::from_str("text/plain; charset=utf-8")
}

/// Which of the three terminal paths a request takes.
pub enum Admission {
    /// The requested name is not in the template set: reply 404.
    NotFound,
    /// No client address came with the request: reply 500.
    NoAddress,
    /// Both a template and a client address are known: go render.
    Render,
}

/// Decide a request's path: an unknown name is rejected before the
/// client address is even looked at; a known name without an address is
/// an internal error; otherwise the request goes to the compositor.
pub fn route_advert(found: bool, has_address: bool) -> (r: Admission)
    ensures
        !found ==> r is NotFound,
        found && !has_address ==> r is NoAddress,
        found && has_address ==> r is Render,
{
    if !found {
        Admission::NotFound
    } else if !has_address {
        Admission::NoAddress
    } else {
        Admission::Render
    }
}

/// The 404 reply for a name that is not in the template set: plain
/// text, with a non-empty body.
pub fn not_found_response() -> (r: AdvertResponse)
    ensures
        r.status == 404,
        r.content_type@ == plain_text_type(),
        r.body is Text,
        r.body->Text_0@ == "resource not found on server"@,
        r.body->Text_0@.len() > 0,
{
    proof {
        reveal_strlit("resource not found on server");
    }
    AdvertResponse {
        status: 404,
        content_type: plain_text_content_type(),
        body: ReplyBody::Text(String::from_str("resource not found on server")),
    }
}

/// The 500 reply for a request that arrived without a client address:
/// plain text, with a non-empty body.
pub fn no_address_response() -> (r: AdvertResponse)
    ensures
        r.status == 500,
        r.content_type@ == plain_text_type(),
        r.body is Text,
        r.body->Text_0@ == "no remote address"@,
        r.body->Text_0@.len() > 0,
{
    proof {
        reveal_strlit("no remote address");
    }
    AdvertResponse {
        status: 500,
        content_type: plain_text_content_type(),
        body: ReplyBody::Text(String::from_str("no remote address")),
    }
}

/// The 500 reply for a render that failed: plain text, the caller's
/// description of the error as the body.
pub fn render_failure_response(message: String) -> (r: AdvertResponse)
    ensures
        r.status == 500,
        r.content_type@ == plain_text_type(),
        r.body is Text,
        r.body->Text_0@ == message@,
{
    AdvertResponse {
        status: 500,
        content_type: plain_text_content_type(),
        body: ReplyBody::Text(message),
    }
}

/// The 200 reply for a successful render: the template's declared MIME
/// type and the encoded image bytes, whole.
pub fn success_response(mime: &str, image: Vec<u8>) -> (r: AdvertResponse)
    ensures
        r.status == 200,
        r.content_type@ == mime@,
        r.body is Bytes,
        r.body->Bytes_0@ == image@,
{
    AdvertResponse {
        status: 200,
        content_type: String::from_str(mime),
        body: ReplyBody::Bytes(image),
    }
}

/// The bytes of ": ", between a field name and its value.
pub open spec fn colon_space() -> Seq<u8> {
    seq![58u8, 32u8]
}

/// The byte that ends every line.
pub open spec fn newline() -> Seq<u8> {
    seq![10u8]
}

/// One line of the info page: name, ": ", value, newline.
pub open spec fn info_line(name: Seq<u8>, value: Seq<u8>) -> Seq<u8> {
    name + colon_space() + value + newline()
}

/// One line per header, in the order given.
pub open spec fn header_block(headers: Seq<(Vec<u8>, Vec<u8>)>) -> Seq<u8>
    decreases headers.len(),
{
    if headers.len() == 0 {
        Seq::empty()
    } else {
        info_line(headers[0].0@, headers[0].1@) + header_block(headers.drop_first())
    }
}

/// A labeled line for a value the lookup may not have produced: absent
/// values print nothing.
pub open spec fn opt_line(label: Seq<u8>, value: Option<Vec<u8>>) -> Seq<u8> {
    match value {
        None => Seq::empty(),
        Some(v) => info_line(label, v@),
    }
}

/// The bytes of "ip".
pub open spec fn ip_label() -> Seq<u8> {
    seq![105u8, 112u8]
}

/// The bytes of "isp".
pub open spec fn isp_label() -> Seq<u8> {
    seq![105u8, 115u8, 112u8]
}

/// The bytes of "city".
pub open spec fn city_label() -> Seq<u8> {
    seq![99u8, 105u8, 116u8, 121u8]
}

/// The bytes of "country".
pub open spec fn country_label() -> Seq<u8> {
    seq![99u8, 111u8, 117u8, 110u8, 116u8, 114u8, 121u8]
}

/// The whole info page: every request header, then whatever of the
/// client's address, provider, city and country could be resolved.
pub open spec fn info_text_spec(
    headers: Seq<(Vec<u8>, Vec<u8>)>,
    ip: Option<Vec<u8>>,
    isp: Option<Vec<u8>>,
    city: Option<Vec<u8>>,
    country: Option<Vec<u8>>,
) -> Seq<u8> {
    header_block(headers) + opt_line(ip_label(), ip) + opt_line(isp_label(), isp) + opt_line(
        city_label(),
        city,
    ) + opt_line(country_label(), country)
}

/// Appending one header keeps the earlier block and adds its line.
proof fn lemma_header_block_push(headers: Seq<(Vec<u8>, Vec<u8>)>, h: (Vec<u8>, Vec<u8>))
    ensures
        header_block(headers.push(h)) == header_block(headers) + info_line(h.0@, h.1@),
    decreases headers.len(),
{
    if headers.len() == 0 {
        assert(headers.push(h)[0] == h);
        assert(headers.push(h).drop_first() =~= Seq::<(Vec<u8>, Vec<u8>)>::empty());
        assert(header_block(headers.push(h).drop_first()) == Seq::<u8>::empty());
        assert(header_block(headers) == Seq::<u8>::empty());
        assert(header_block(headers.push(h)) == info_line(h.0@, h.1@) + Seq::<u8>::empty());
        assert(info_line(h.0@, h.1@) + Seq::<u8>::empty() =~= Seq::<u8>::empty() + info_line(
            h.0@,
            h.1@,
        ));
    } else {
        assert(headers.push(h).drop_first() =~= headers.drop_first().push(h));
        lemma_header_block_push(headers.drop_first(), h);
        assert(headers.push(h)[0] == headers[0]);
        assert(header_block(headers.push(h)) == info_line(headers[0].0@, headers[0].1@)
            + header_block(headers.drop_first().push(h)));
        assert(info_line(headers[0].0@, headers[0].1@) + (header_block(headers.drop_first())
            + info_line(h.0@, h.1@)) =~= (info_line(headers[0].0@, headers[0].1@) + header_block(
            headers.drop_first(),
        )) + info_line(h.0@, h.1@));
    }
}

/// Append a byte string to the buffer.
fn push_bytes(buf: &mut Vec<u8>, bytes: &Vec<u8>)
    ensures
        final(buf)@ == old(buf)@ + bytes@,
{
    let n = bytes.len();
    let mut i: usize = 0;
    while i < n
        invariant
            n == bytes@.len(),
            0 <= i <= n,
            buf@ == old(buf)@ + bytes@.take(i as int),
        decreases n - i,
    {
        buf.push(bytes[i]);
        proof {
            assert(bytes@.take(i + 1) =~= bytes@.take(i as int).push(bytes@[i as int]));
            assert(old(buf)@ + bytes@.take(i + 1) =~= (old(buf)@ + bytes@.take(i as int)).push(
                bytes@[i as int],
            ));
        }
        i = i + 1;
    }
    proof {
        assert(bytes@.take(n as int) =~= bytes@);
    }
}

/// Append one info line: name, ": ", value, newline.
fn push_line(buf: &mut Vec<u8>, name: &Vec<u8>, value: &Vec<u8>)
    ensures
        final(buf)@ == old(buf)@ + info_line(name@, value@),
{
    push_bytes(buf, name);
    buf.push(58);
    buf.push(32);
    push_bytes(buf, value);
    buf.push(10);
    proof {
        assert(buf@ =~= old(buf)@ + info_line(name@, value@));
    }
}

/// Build the info page for one request: dump every header as a line,
/// then a line for each resolved field of the client, in the order
/// address, provider, city, country.
pub fn info_text(
    headers: &Vec<(Vec<u8>, Vec<u8>)>,
    ip: &Option<Vec<u8>>,
    isp: &Option<Vec<u8>>,
    city: &Option<Vec<u8>>,
    country: &Option<Vec<u8>>,
) -> (r: Vec<u8>)
    ensures
        r@ == info_text_spec(headers@, *ip, *isp, *city, *country),
{
    let mut buf: Vec<u8> = Vec::new();
    let n = headers.len();
    let mut i: usize = 0;
    proof {
        assert(headers@.take(0) =~= Seq::<(Vec<u8>, Vec<u8>)>::empty());
        assert(buf@ =~= header_block(headers@.take(0)));
    }
    while i < n
        invariant
            n == headers@.len(),
            0 <= i <= n,
            buf@ == header_block(headers@.take(i as int)),
        decreases n - i,
    {
        let header = &headers[i];
        push_line(&mut buf, &header.0, &header.1);
        proof {
            assert(headers@.take(i + 1) =~= headers@.take(i as int).push(headers@[i as int]));
            lemma_header_block_push(headers@.take(i as int), headers@[i as int]);
        }
        i = i + 1;
    }
    proof {
        assert(headers@.take(n as int) =~= headers@);
    }
    let ghost after_headers = buf@;
    if let Some(v) = ip {
        let label = ip_label_bytes();
        push_line(&mut buf, &label, v);
    }
    proof {
        assert(buf@ =~= after_headers + opt_line(ip_label(), *ip));
    }
    let ghost after_ip = buf@;
    if let Some(v) = isp {
        let label = isp_label_bytes();
        push_line(&mut buf, &label, v);
    }
    proof {
        assert(buf@ =~= after_ip + opt_line(isp_label(), *isp));
    }
    let ghost after_isp = buf@;
    if let Some(v) = city {
        let label = city_label_bytes();
        push_line(&mut buf, &label, v);
    }
    proof {
        assert(buf@ =~= after_isp + opt_line(city_label(), *city));
    }
    let ghost after_city = buf@;
    if let Some(v) = country {
        let label = country_label_bytes();
        push_line(&mut buf, &label, v);
    }
    proof {
        assert(buf@ =~= after_city + opt_line(country_label(), *country));
        assert(buf@ =~= info_text_spec(headers@, *ip, *isp, *city, *country));
    }
    buf
}

/// The bytes of "ip".
fn ip_label_bytes() -> (r: Vec<u8>)
    ensures
        r@ == ip_label(),
{
    let mut v: Vec<u8> = Vec::new();
    v.push(105);
    v.push(112);
    proof {
        assert(v@ =~= ip_label());
    }
    v
}

/// The bytes of "isp".
fn isp_label_bytes() -> (r: Vec<u8>)
    ensures
        r@ == isp_label(),
{
    let mut v: Vec<u8> = Vec::new();
    v.push(105);
    v.push(115);
    v.push(112);
    proof {
        assert(v@ =~= isp_label());
    }
    v
}

/// The bytes of "city".
fn city_label_bytes() -> (r: Vec<u8>)
    ensures
        r@ == city_label(),
{
    let mut v: Vec<u8> = Vec::new();
    v.push(99);
    v.push(105);
    v.push(116);
    v.push(121);
    proof {
        assert(v@ =~= city_label());
    }
    v
}

/// The bytes of "country".
fn country_label_bytes() -> (r: Vec<u8>)
    ensures
        r@ == country_label(),
{
    let mut v: Vec<u8> = Vec::new();
    v.push(99);
    v.push(111);
    v.push(117);
    v.push(110);
    v.push(116);
    v.push(114);
    v.push(121);
    proof {
        assert(v@ =~= country_label());
    }
    v
}

} // verus!
