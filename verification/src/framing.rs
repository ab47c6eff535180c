//! HTTP framing on raw bytes: finding the body of a request that was read
//! from a TCP stream, and building the plain-text `200 OK` reply.

use vstd::prelude::*;
use vstd::slice::slice_subrange;
use vstd::utf8::{encode_utf8, is_ascii_chars, is_ascii_chars_encode_utf8, valid_utf8};

verus! {

// ---------------------------------------------------------------------------
// The header/body separator
// ---------------------------------------------------------------------------

/// The four bytes `\r\n\r\n` that end the header block of an HTTP message.
pub open spec fn header_end_marker() -> Seq<u8> {
    seq![13u8, 10u8, 13u8, 10u8]
}

/// The separator starts at position `i` of `s`.
pub open spec fn marker_at(s: Seq<u8>, i: int) -> bool {
    0 <= i && i + 4 <= s.len() && s.subrange(i, i + 4) == header_end_marker()
}

/// The separator starts at `i`, and nowhere before `i`.
pub open spec fn is_first_marker(s: Seq<u8>, i: int) -> bool {
    marker_at(s, i) && forall|j: int| 0 <= j < i ==> !marker_at(s, j)
}

/// The position of the first separator in `s`, if there is one.
pub open spec fn first_marker(s: Seq<u8>) -> Option<int> {
    if exists|i: int| marker_at(s, i) {
        Some(choose|i: int| is_first_marker(s, i))
    } else {
        None
    }
}

/// Two first occurrences are the same occurrence.
pub proof fn lemma_first_marker_unique(s: Seq<u8>, i: int, j: int)
    requires
        is_first_marker(s, i),
        is_first_marker(s, j),
    ensures
        i == j,
{
}

/// An occurrence of the separator has a first occurrence, which is what
/// `first_marker` names.
pub proof fn lemma_first_marker_is_first(s: Seq<u8>, i: int)
    requires
        is_first_marker(s, i),
    ensures
        first_marker(s) == Some(i),
{
    assert(exists|k: int| marker_at(s, k));
    assert(exists|k: int| is_first_marker(s, k));
    let k = choose|k: int| is_first_marker(s, k);
    lemma_first_marker_unique(s, i, k);
}

/// Every sequence that holds the separator somewhere has a first one.
pub proof fn lemma_first_marker_exists(s: Seq<u8>, i: int)
    requires
        marker_at(s, i),
    ensures
        first_marker(s) is Some,
        is_first_marker(s, first_marker(s)->0),
    decreases i,
{
    if forall|j: int| 0 <= j < i ==> !marker_at(s, j) {
        lemma_first_marker_is_first(s, i);
    } else {
        let j = choose|j: int| 0 <= j < i && marker_at(s, j);
        lemma_first_marker_exists(s, j);
    }
}

/// Finds the first occurrence of `\r\n\r\n` in `s`.
pub fn find_header_end(s: &[u8]) -> (res: Option<usize>)
    ensures
        match res {
            Some(i) => is_first_marker(s@, i as int) && first_marker(s@) == Some(i as int),
            None => first_marker(s@) is None && forall|j: int| !marker_at(s@, j),
        },
{
    let n = s.len();
    if n < 4 {
        return None;
    }
    let mut i: usize = 0;
    while i <= n - 4
        invariant
            n == s@.len(),
            4 <= n,
            i <= n - 3,
            forall|j: int| 0 <= j < i ==> !marker_at(s@, j),
        decreases n - i,
    {
        if s[i] == 13 && s[i + 1] == 10 && s[i + 2] == 13 && s[i + 3] == 10 {
            assert(s@.subrange(i as int, i + 4) =~= header_end_marker());
            proof {
                lemma_first_marker_is_first(s@, i as int);
            }
            return Some(i);
        }
        assert(!marker_at(s@, i as int)) by {
            if marker_at(s@, i as int) {
                assert(s@.subrange(i as int, i + 4)[0] == s@[i as int]);
                assert(s@.subrange(i as int, i + 4)[1] == s@[i + 1]);
                assert(s@.subrange(i as int, i + 4)[2] == s@[i + 2]);
                assert(s@.subrange(i as int, i + 4)[3] == s@[i + 3]);
            }
        }
        i = i + 1;
    }
    None
}

// ---------------------------------------------------------------------------
// Lossy UTF-8 decoding
// ---------------------------------------------------------------------------

/// The bytes of the string that `String::from_utf8_lossy` makes of `bytes`:
/// each invalid UTF-8 sequence replaced by U+FFFD, valid text unchanged.
pub uninterp spec fn utf8_lossy(bytes: Seq<u8>) -> Seq<u8>;

/// Calls `String::from_utf8_lossy` on `buf` and hands back the bytes of the
/// resulting string. Trusted: the result is what `utf8_lossy` names, and, as
/// std documents, input that is valid UTF-8 comes back unchanged. Which
/// bytes replace an invalid sequence is left unsaid.
#[verifier::external_body]
pub(crate) fn decode_lossy(buf: &[u8]) -> (text: Vec<u8>)
    ensures
        text@ == utf8_lossy(buf@),
        valid_utf8(buf@) ==> text@ == buf@,
{
    String::from_utf8_lossy(buf).into_owned().into_bytes()
}

// ---------------------------------------------------------------------------
// Request body extraction
// ---------------------------------------------------------------------------

/// The error text of a request that holds no header/body separator.
pub const MISSING_SEPARATOR: &'static str = "Invalid HTTP request format: Missing header-body separator";

/// The bytes after the first separator of `s`, where `s` has one.
pub open spec fn raw_body(s: Seq<u8>) -> Option<Seq<u8>> {
    match first_marker(s) {
        Some(p) => Some(s.subrange(p + 4, s.len() as int)),
        None => None,
    }
}

/// Parses the HTTP request and extracts the body: the bytes after the
/// first `\r\n\r\n`.
pub fn parse_http_request(buf: &[u8]) -> (res: Result<&[u8], &'static str>)
    ensures
        match raw_body(buf@) {
            Some(body) => res matches Ok(b) && b@ == body,
            None => res == Err::<&[u8], &'static str>(MISSING_SEPARATOR),
        },
{
    match find_header_end(buf) {
        Some(body_start) => {
            assert(marker_at(buf@, body_start as int));
            assert(buf@.len() == buf.len());
            let body = slice_subrange(buf, body_start + 4, buf.len());
            Ok(body)
        },
        None => Err(MISSING_SEPARATOR),
    }
}

// ---------------------------------------------------------------------------
// Decimal numbers
// ---------------------------------------------------------------------------

/// The ASCII decimal digits of `n`, most significant first, with no
/// leading zero (a lone `0` for zero).
pub open spec fn decimal_digits(n: nat) -> Seq<u8>
    decreases n,
{
    if n < 10 {
        seq![(48 + n) as u8]
    } else {
        decimal_digits(n / 10).push((48 + n % 10) as u8)
    }
}

/// The number that a sequence of ASCII decimal digits denotes.
pub open spec fn decimal_value(digits: Seq<u8>) -> int
    decreases digits.len(),
{
    if digits.len() == 0 {
        0
    } else {
        decimal_value(digits.drop_last()) * 10 + (digits.last() - 48)
    }
}

/// Appends the decimal digits of `n` to `out`.
pub fn push_decimal(out: &mut Vec<u8>, n: usize)
    ensures
        final(out)@ == old(out)@ + decimal_digits(n as nat),
    decreases n,
{
    if n >= 10 {
        push_decimal(out, n / 10);
    }
    let d: u8 = (n % 10) as u8;
    out.push(48 + d);
    proof {
        if n >= 10 {
            assert(decimal_digits(n as nat) == decimal_digits((n / 10) as nat).push((48 + n % 10) as u8));
        } else {
            assert(decimal_digits(n as nat) =~= seq![(48 + n) as u8]);
        }
    }
    assert(final(out)@ =~= old(out)@ + decimal_digits(n as nat));
}

// ---------------------------------------------------------------------------
// The reply
// ---------------------------------------------------------------------------

/// `HTTP/1.1 200 OK\r\nContent-Type: text/plain\r\nContent-Length: `
pub open spec fn response_preamble() -> Seq<u8> {
    seq![
        72u8, 84, 84, 80, 47, 49, 46, 49, 32, 50, 48, 48, 32, 79, 75, 13, 10,
        67, 111, 110, 116, 101, 110, 116, 45, 84, 121, 112, 101, 58, 32,
        116, 101, 120, 116, 47, 112, 108, 97, 105, 110, 13, 10,
        67, 111, 110, 116, 101, 110, 116, 45, 76, 101, 110, 103, 116, 104, 58, 32,
    ]
}

/// The header block of a reply whose body is `len` bytes long.
pub open spec fn response_head(len: nat) -> Seq<u8> {
    response_preamble() + decimal_digits(len) + header_end_marker()
}

/// The reply to a client: a `200 OK` plain-text response whose
/// `Content-Length` is the length of `message`, followed by `message`
/// decoded lossily as UTF-8.
pub open spec fn response_bytes(message: Seq<u8>) -> Seq<u8> {
    response_head(message.len()) + utf8_lossy(message)
}

fn preamble_bytes() -> (b: &'static [u8])
    ensures
        b@ == response_preamble(),
{
    let s = "HTTP/1.1 200 OK\r\nContent-Type: text/plain\r\nContent-Length: ";
    proof {
        reveal_strlit("HTTP/1.1 200 OK\r\nContent-Type: text/plain\r\nContent-Length: ");
        broadcast use vstd::string::group_string_axioms;
        assert(vstd::string::is_ascii(s));
    }
    let b = s.as_bytes();
    assert(b@ =~= response_preamble());
    b
}

/// Appends all of `src` to `out`.
fn push_all(out: &mut Vec<u8>, src: &[u8])
    ensures
        final(out)@ == old(out)@ + src@,
{
    let n = src.len();
    let mut i: usize = 0;
    while i < n
        invariant
            n == src@.len(),
            i <= n,
            out@ == old(out)@ + src@.subrange(0, i as int),
        decreases n - i,
    {
        out.push(src[i]);
        assert(src@.subrange(0, i + 1) =~= src@.subrange(0, i as int).push(src@[i as int]));
        i = i + 1;
    }
    assert(src@.subrange(0, n as int) =~= src@);
}

/// Builds the full reply that carries `message` to the client.
pub fn http_response(message: &[u8]) -> (out: Vec<u8>)
    ensures
        out@ == response_bytes(message@),
        valid_utf8(message@) ==> out@ == response_head(message@.len()) + message@,
{
    let mut out: Vec<u8> = Vec::new();
    push_all(&mut out, preamble_bytes());
    push_decimal(&mut out, message.len());
    out.push(13);
    out.push(10);
    out.push(13);
    out.push(10);
    let text = decode_lossy(message);
    push_all(&mut out, text.as_slice());
    assert(out@ =~= response_bytes(message@));
    out
}

// ---------------------------------------------------------------------------
// Laws
// ---------------------------------------------------------------------------

/// Every byte of `s` is ASCII.
pub open spec fn is_ascii_bytes(s: Seq<u8>) -> bool {
    forall|i: int| 0 <= i < s.len() ==> s[i] <= 0x7f
}

/// The decimal digits of a number are at least one ASCII digit.
pub proof fn lemma_decimal_digits_are_digits(n: nat)
    ensures
        decimal_digits(n).len() >= 1,
        forall|i: int| 0 <= i < decimal_digits(n).len() ==> 48 <= #[trigger] decimal_digits(n)[i] <= 57,
    decreases n,
{
    if n >= 10 {
        lemma_decimal_digits_are_digits(n / 10);
    }
}

/// The decimal digits of `n` denote `n`, and a number of two digits or more
/// does not start with a zero.
pub proof fn law_decimal_digits_denote_the_number(n: nat)
    ensures
        decimal_value(decimal_digits(n)) == n,
        n >= 10 ==> decimal_digits(n)[0] != 48,
    decreases n,
{
    if n >= 10 {
        law_decimal_digits_denote_the_number(n / 10);
        lemma_decimal_digits_are_digits(n / 10);
        let d = decimal_digits(n);
        assert(d.drop_last() =~= decimal_digits(n / 10));
        assert(d[0] == decimal_digits(n / 10)[0]);
        assert(d.last() == 48 + n % 10);
        assert((n / 10) * 10 + n % 10 == n);
    } else {
        let d = decimal_digits(n);
        assert(d.drop_last() =~= Seq::<u8>::empty());
        assert(d.last() == 48 + n);
        assert(decimal_value(d.drop_last()) == 0);
    }
}

/// The separator that closes the header block of a reply is the first one
/// in it, and the header block is ASCII.
proof fn lemma_head_first_marker(len: nat)
    ensures
        is_first_marker(response_head(len), response_head(len).len() - 4),
        is_ascii_bytes(response_head(len)),
{
    let p = response_preamble();
    let d = decimal_digits(len);
    let h = response_head(len);
    lemma_decimal_digits_are_digits(len);
    assert(forall|j: int| 0 <= j < 59 && #[trigger] p[j] == 13 ==> j == 15 || j == 41);
    assert(forall|j: int| 0 <= j < 59 ==> #[trigger] p[j] <= 0x7f);
    assert(h.len() == 59 + d.len() + 4);
    assert forall|j: int| 0 <= j < h.len() - 4 implies !marker_at(h, j) by {
        if marker_at(h, j) {
            assert(h.subrange(j, j + 4)[0] == h[j]);
            assert(h.subrange(j, j + 4)[2] == h[j + 2]);
            if j < 59 {
                assert(h[j] == p[j]);
                assert(h[j + 2] == p[j + 2]);
            } else {
                assert(h[j] == d[j - 59]);
            }
        }
    }
    assert(h.subrange(h.len() - 4, h.len() as int) =~= header_end_marker());
    assert forall|i: int| 0 <= i < h.len() implies h[i] <= 0x7f by {
        if i < 59 {
            assert(h[i] == p[i]);
        } else if i < 59 + d.len() {
            assert(h[i] == d[i - 59]);
        }
    }
}

/// A reply starts with the status line `HTTP/1.1 200 OK`, then the headers
/// `Content-Type: text/plain` and `Content-Length: ` with the decimal
/// length of the message, then a blank line.
pub proof fn law_reply_header_text(len: nat)
    ensures
        response_head(len) == encode_utf8(
            "HTTP/1.1 200 OK\r\nContent-Type: text/plain\r\nContent-Length: "@,
        ) + decimal_digits(len) + encode_utf8("\r\n\r\n"@),
{
    reveal_strlit("HTTP/1.1 200 OK\r\nContent-Type: text/plain\r\nContent-Length: ");
    reveal_strlit("\r\n\r\n");
    let pre = "HTTP/1.1 200 OK\r\nContent-Type: text/plain\r\nContent-Length: "@;
    let end = "\r\n\r\n"@;
    assert(is_ascii_chars(pre));
    assert(is_ascii_chars(end));
    is_ascii_chars_encode_utf8(pre);
    is_ascii_chars_encode_utf8(end);
    assert(encode_utf8(pre) =~= response_preamble());
    assert(encode_utf8(end) =~= header_end_marker());
}

/// Bytes that arrive after a complete header block only lengthen the
/// body: the separator that ends the head stays the first one.
pub proof fn law_appended_bytes_lengthen_the_body(buf: Seq<u8>, extra: Seq<u8>)
    requires
        raw_body(buf) is Some,
    ensures
        raw_body(buf + extra) == Some(raw_body(buf)->0 + extra),
{
    let i = choose|i: int| marker_at(buf, i);
    lemma_first_marker_exists(buf, i);
    let p = first_marker(buf)->0;
    let s = buf + extra;
    assert forall|j: int| 0 <= j < p implies !marker_at(s, j) by {
        assert(!marker_at(buf, j));
        assert(s.subrange(j, j + 4) =~= buf.subrange(j, j + 4));
    }
    assert(s.subrange(p, p + 4) =~= buf.subrange(p, p + 4));
    lemma_first_marker_is_first(s, p);
    assert(s.subrange(p + 4, s.len() as int) =~= buf.subrange(p + 4, buf.len() as int) + extra);
}

/// Cutting a reply after its first `\r\n\r\n`, as `parse_http_request`
/// cuts a request, gives back exactly the bytes after its header block,
/// whatever they are: the reply framing and the request parsing agree.
/// With `http_response`, a message that is valid UTF-8 comes back as sent.
pub proof fn law_reply_body_round_trip(len: nat, body: Seq<u8>)
    ensures
        raw_body(response_head(len) + body) == Some(body),
        is_ascii_bytes(response_head(len)),
{
    let h = response_head(len);
    let s = h + body;
    let k = h.len() - 4;
    lemma_head_first_marker(len);
    assert forall|j: int| 0 <= j < k implies !marker_at(s, j) by {
        assert(!marker_at(h, j));
        assert(s.subrange(j, j + 4) =~= h.subrange(j, j + 4));
    }
    assert(s.subrange(k, k + 4) =~= h.subrange(k, k + 4));
    lemma_first_marker_is_first(s, k);
    assert(s.subrange(k + 4, s.len() as int) =~= body);
}

} // verus!
