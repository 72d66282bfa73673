//! Per-connection dispatch logic: match the raw bytes read from a connection
//! against the encoded route table, pick the status and body source, and
//! format the full response with an exact `Content-Length` header.

use vstd::prelude::*;
use crate::routes::spec_request_line;
use crate::routes::lemma_request_line_opens_with_method;
use crate::routes::Method;

verus! {

/// `p` is a prefix of `s`: every byte of `p` stands at the same position in `s`.
pub open spec fn is_prefix_of(p: Seq<u8>, s: Seq<u8>) -> bool {
    p.len() <= s.len() && forall|i: int| 0 <= i < p.len() ==> p[i] == s[i]
}

/// A request buffer matches the table when some encoded route line is a
/// byte-for-byte prefix of it.
pub open spec fn spec_matched(routes: Seq<Vec<u8>>, buffer: Seq<u8>) -> bool {
    exists|i: int| 0 <= i < routes.len() && is_prefix_of(routes[i]@, buffer)
}

/// Byte-prefix test: does `s` start with `p`?
pub fn starts_with(s: &Vec<u8>, p: &Vec<u8>) -> (r: bool)
    ensures
        r == is_prefix_of(p@, s@),
{
    if p.len() > s.len() {
        return false;
    }
    let n = p.len();
    for k in 0..n
        invariant
            n == p@.len() <= s@.len(),
            forall|i: int| 0 <= i < k ==> p@[i] == s@[i],
    {
        if p[k] != s[k] {
            return false;
        }
    }
    true
}

/// Scan the route table in declaration order and return the index of the
/// first route whose request line the buffer opens with, or nothing when no
/// route matches. First match wins: a table with overlapping entries is
/// resolved by declaration order, and the scan stops at the winner.
pub fn find_route(buffer: &Vec<u8>, routes: &Vec<Vec<u8>>) -> (r: Option<usize>)
    ensures
        r matches Some(w) ==> 0 <= w < routes@.len() && is_prefix_of(routes@[w as int]@, buffer@)
            && forall|i: int| 0 <= i < w ==> !is_prefix_of(routes@[i]@, buffer@),
        r is None ==> !spec_matched(routes@, buffer@),
{
    let n = routes.len();
    for k in 0..n
        invariant
            n == routes@.len(),
            forall|i: int| 0 <= i < k ==> !is_prefix_of(routes@[i]@, buffer@),
    {
        if starts_with(buffer, &routes[k]) {
            return Some(k);
        }
    }
    None
}

/// Report whether the request matches any route of the table: the decision
/// between the success and the not-found response.
pub fn dispatch(buffer: &Vec<u8>, routes: &Vec<Vec<u8>>) -> (matched: bool)
    ensures
        matched == spec_matched(routes@, buffer@),
{
    find_route(buffer, routes).is_some()
}

/// A buffer that holds no data — empty, or still all NUL bytes because the
/// read returned nothing — matches no table built from canonical request
/// lines, so dispatch falls through to the not-found outcome.
pub proof fn lemma_blank_buffer_never_matches(routes: Seq<Vec<u8>>, buffer: Seq<u8>)
    requires
        forall|i: int|
            0 <= i < routes.len() ==> exists|m: Method, p: Seq<u8>|
                (#[trigger] routes[i])@ == spec_request_line(m, p),
        forall|j: int| 0 <= j < buffer.len() ==> buffer[j] == 0u8,
    ensures
        !spec_matched(routes, buffer),
{
    assert forall|i: int| 0 <= i < routes.len() implies !is_prefix_of(routes[i]@, buffer) by {
        let (m, p) = choose|m: Method, p: Seq<u8>| routes[i]@ == spec_request_line(m, p);
        lemma_request_line_opens_with_method(m, p);
        if is_prefix_of(routes[i]@, buffer) {
            assert(routes[i]@[0] == buffer[0]);
        }
    }
}

/// The bytes `"HTTP/1.1 200 OK"`.
pub open spec fn spec_ok_status() -> Seq<u8> {
    seq![
        72u8,
        84u8,
        84u8,
        80u8,
        47u8,
        49u8,
        46u8,
        49u8,
        32u8,
        50u8,
        48u8,
        48u8,
        32u8,
        79u8,
        75u8,
    ]
}

/// The bytes `"HTTP/1.1 404 NOT FOUND"`.
pub open spec fn spec_not_found_status() -> Seq<u8> {
    seq![
        72u8,
        84u8,
        84u8,
        80u8,
        47u8,
        49u8,
        46u8,
        49u8,
        32u8,
        52u8,
        48u8,
        52u8,
        32u8,
        78u8,
        79u8,
        84u8,
        32u8,
        70u8,
        79u8,
        85u8,
        78u8,
        68u8,
    ]
}

/// The status line a dispatch outcome maps to: matched requests get the
/// success line, everything else the not-found line.
pub open spec fn spec_status_line(matched: bool) -> Seq<u8> {
    if matched {
        spec_ok_status()
    } else {
        spec_not_found_status()
    }
}

/// The status line of a dispatch outcome, as bytes ready for the wire.
pub fn status_line(matched: bool) -> (r: Vec<u8>)
    ensures
        r@ == spec_status_line(matched),
{
    let mut r: Vec<u8> = Vec::new();
    r.push(72u8);
    r.push(84u8);
    r.push(84u8);
    r.push(80u8);
    r.push(47u8);
    r.push(49u8);
    r.push(46u8);
    r.push(49u8);
    r.push(32u8);
    if matched {
        r.push(50u8);
        r.push(48u8);
        r.push(48u8);
        r.push(32u8);
        r.push(79u8);
        r.push(75u8);
        assert(r@ =~= spec_ok_status());
    } else {
        r.push(52u8);
        r.push(48u8);
        r.push(52u8);
        r.push(32u8);
        r.push(78u8);
        r.push(79u8);
        r.push(84u8);
        r.push(32u8);
        r.push(70u8);
        r.push(79u8);
        r.push(85u8);
        r.push(78u8);
        r.push(68u8);
        assert(r@ =~= spec_not_found_status());
    }
    r
}

/// The file each dispatch outcome draws its response body from.
pub fn body_file(matched: bool) -> (r: &'static str)
    ensures
        matched ==> r@ == "hello.html"@,
        !matched ==> r@ == "404.html"@,
{
    if matched {
        "hello.html"
    } else {
        "404.html"
    }
}

/// The shortest base-10 digit string of `n` (with no leading zero except for
/// `n == 0` itself), as ASCII bytes.
pub open spec fn spec_decimal(n: nat) -> Seq<u8>
    decreases n,
{
    if n < 10 {
        seq![(48 + n) as u8]
    } else {
        spec_decimal(n / 10).push((48 + n % 10) as u8)
    }
}

/// The numeric value of a string of ASCII digit bytes, read base 10.
pub open spec fn spec_decimal_value(digits: Seq<u8>) -> nat
    decreases digits.len(),
{
    if digits.len() == 0 {
        0
    } else {
        spec_decimal_value(digits.drop_last()) * 10 + (digits.last() - 48) as nat
    }
}

/// Printing a number and reading the digits back yields the number: the
/// decimal encoding is faithful.
pub proof fn lemma_decimal_round_trip(n: nat)
    ensures
        spec_decimal_value(spec_decimal(n)) == n,
    decreases n,
{
    if n < 10 {
        let digits = spec_decimal(n);
        assert(digits.drop_last() =~= Seq::<u8>::empty());
        assert(digits.last() == (48 + n) as u8);
        assert(spec_decimal_value(Seq::<u8>::empty()) == 0);
        assert(spec_decimal_value(digits) == (digits.last() - 48) as nat);
    } else {
        lemma_decimal_round_trip(n / 10);
        let digits = spec_decimal(n);
        assert(digits.drop_last() =~= spec_decimal(n / 10));
        assert(digits.last() == (48 + n % 10) as u8);
        assert(spec_decimal_value(digits) == (n / 10) * 10 + n % 10);
        assert((n / 10) * 10 + n % 10 == n) by {
            vstd::arithmetic::div_mod::lemma_fundamental_div_mod(n as int, 10);
        }
    }
}

/// Every byte of a decimal encoding is an ASCII digit.
pub proof fn lemma_decimal_digits_ascii(n: nat)
    ensures
        forall|i: int|
            0 <= i < spec_decimal(n).len() ==> 48 <= #[trigger] spec_decimal(n)[i] <= 57,
    decreases n,
{
    if n < 10 {
        assert(spec_decimal(n)[0] == (48 + n) as u8);
    } else {
        lemma_decimal_digits_ascii(n / 10);
        let digits = spec_decimal(n);
        assert forall|i: int| 0 <= i < digits.len() implies 48 <= #[trigger] digits[i] <= 57 by {
            if i < digits.len() - 1 {
                assert(digits[i] == spec_decimal(n / 10)[i]);
            } else {
                assert(digits[i] == (48 + n % 10) as u8);
            }
        }
    }
}

/// The decimal digits of `n`, as ASCII bytes.
pub fn decimal_bytes(n: usize) -> (r: Vec<u8>)
    ensures
        r@ == spec_decimal(n as nat),
    decreases n,
{
    if n < 10 {
        let mut r: Vec<u8> = Vec::new();
        r.push(48 + n as u8);
        assert(r@ =~= spec_decimal(n as nat));
        r
    } else {
        let mut r = decimal_bytes(n / 10);
        r.push(48 + (n % 10) as u8);
        r
    }
}

/// The bytes `"\r\nContent-Length: "`: the separator and header between the
/// status line and the body-length digits.
pub open spec fn spec_length_header() -> Seq<u8> {
    seq![
        13u8,
        10u8,
        67u8,
        111u8,
        110u8,
        116u8,
        101u8,
        110u8,
        116u8,
        45u8,
        76u8,
        101u8,
        110u8,
        103u8,
        116u8,
        104u8,
        58u8,
        32u8,
    ]
}

/// The bytes `"\r\n\r\n"` closing the header section.
pub open spec fn spec_header_end() -> Seq<u8> {
    seq![13u8, 10u8, 13u8, 10u8]
}

/// The complete wire response for a dispatch outcome and a body: status line,
/// `Content-Length` header carrying the decimal length of the body, a blank
/// line, then the body itself.
pub open spec fn spec_response(matched: bool, body: Seq<u8>) -> Seq<u8> {
    spec_status_line(matched) + spec_length_header() + spec_decimal(body.len()) + spec_header_end()
        + body
}

/// Format the full response for one connection.
pub fn build_response(matched: bool, body: &Vec<u8>) -> (r: Vec<u8>)
    ensures
        r@ == spec_response(matched, body@),
{
    let mut r = status_line(matched);
    let ghost status = r@;
    r.push(13u8);
    r.push(10u8);
    r.push(67u8);
    r.push(111u8);
    r.push(110u8);
    r.push(116u8);
    r.push(101u8);
    r.push(110u8);
    r.push(116u8);
    r.push(45u8);
    r.push(76u8);
    r.push(101u8);
    r.push(110u8);
    r.push(103u8);
    r.push(116u8);
    r.push(104u8);
    r.push(58u8);
    r.push(32u8);
    assert(r@ =~= status + spec_length_header());
    let mut digits = decimal_bytes(body.len());
    r.append(&mut digits);
    r.push(13u8);
    r.push(10u8);
    r.push(13u8);
    r.push(10u8);
    let ghost head = r@;
    assert(head =~= status + spec_length_header() + spec_decimal(body@.len()) + spec_header_end());
    let n = body.len();
    for k in 0..n
        invariant
            n == body@.len(),
            r@ == head + body@.subrange(0, k as int),
    {
        r.push(body[k]);
        assert(r@ =~= head + body@.subrange(0, k + 1));
    }
    assert(body@.subrange(0, n as int) =~= body@);
    assert(r@ =~= spec_response(matched, body@));
    r
}

/// The `Content-Length` digits inside any built response decode to exactly
/// the length of the body that follows the blank line: the header never lies
/// about the body it frames.
pub proof fn lemma_content_length_exact(matched: bool, body: Seq<u8>)
    ensures
        ({
            let resp = spec_response(matched, body);
            let digits_at = spec_status_line(matched).len() + spec_length_header().len();
            let digits = resp.subrange(
                digits_at as int,
                digits_at + spec_decimal(body.len()).len() as int,
            );
            &&& spec_decimal_value(digits) == body.len()
            &&& resp.len() == digits_at + spec_decimal(body.len()).len() + spec_header_end().len()
                + body.len()
            &&& resp.subrange(resp.len() - body.len(), resp.len() as int) =~= body
        }),
{
    let resp = spec_response(matched, body);
    let digits_at = spec_status_line(matched).len() + spec_length_header().len();
    assert(resp.subrange(digits_at as int, digits_at + spec_decimal(body.len()).len() as int)
        =~= spec_decimal(body.len()));
    lemma_decimal_round_trip(body.len());
    assert(resp.subrange(resp.len() - body.len(), resp.len() as int) =~= body);
}

} // verus!
