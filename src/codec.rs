//! Frame codec: wraps a JPEG payload into a multipart part header and body.
use vstd::prelude::*;
use vstd::string::StringSliceAdditionalSpecFns;

verus! {

/// ASCII code of the digit `0`.
pub const ZERO_DIGIT: u8 = 48;

/// The text of the part header that stands before the declared length.
pub open spec fn header_prefix() -> Seq<u8> {
    "\r\n--MJPEGBOUNDARY\r\nContent-Length: ".spec_bytes()
}

/// The text of the part header that follows the declared length.
pub open spec fn header_suffix() -> Seq<u8> {
    "\r\nX-Timestamp: 0.000000\r\n\r\n".spec_bytes()
}

/// The decimal digits of `n`, most significant first, without leading zeros.
pub open spec fn decimal(n: nat) -> Seq<u8>
    decreases n,
{
    if n < 10 {
        seq![(ZERO_DIGIT + n) as u8]
    } else {
        decimal(n / 10).push((ZERO_DIGIT + n % 10) as u8)
    }
}

pub open spec fn is_digit(b: u8) -> bool {
    ZERO_DIGIT <= b <= ZERO_DIGIT + 9
}

/// The number that a sequence of decimal digits denotes.
pub open spec fn digits_value(s: Seq<u8>) -> nat
    decreases s.len(),
{
    if s.len() == 0 {
        0
    } else {
        digits_value(s.drop_last()) * 10 + (s.last() - ZERO_DIGIT) as nat
    }
}

/// The part header announcing a body of `n` bytes.
pub open spec fn header_for(n: nat) -> Seq<u8> {
    header_prefix() + decimal(n) + header_suffix()
}

/// The content length that a part header declares, if it has the part
/// header's shape: the fixed prefix, one or more decimal digits, the fixed
/// suffix.
pub open spec fn declared_length(h: Seq<u8>) -> Option<nat> {
    let p = header_prefix().len();
    let s = header_suffix().len();
    if h.len() > p + s && h.subrange(0, p as int) == header_prefix() && h.subrange(
        h.len() - s,
        h.len() as int,
    ) == header_suffix() && (forall|i: int|
        p <= i < h.len() - s ==> #[trigger] is_digit(h[i])) {
        Some(digits_value(h.subrange(p as int, h.len() - s)))
    } else {
        None
    }
}

/// One encoded unit of video: the multipart part header and the JPEG body.
pub struct Frame {
    pub header: Vec<u8>,
    pub body: Vec<u8>,
}

impl Frame {
    /// The bytes that a connection writes for this frame: header, then body.
    pub open spec fn wire(&self) -> Seq<u8> {
        self.header@ + self.body@
    }

    /// Wraps a JPEG payload. Any byte sequence is accepted; the payload is
    /// kept unchanged as the body.
    pub fn from_jpeg_buf(buf: Vec<u8>) -> (r: Frame)
        ensures
            r.header@ == header_for(buf@.len()),
            r.body@ == buf@,
    {
        let mut header: Vec<u8> = Vec::new();
        push_str(&mut header, "\r\n--MJPEGBOUNDARY\r\nContent-Length: ");
        push_decimal(&mut header, buf.len());
        push_str(&mut header, "\r\nX-Timestamp: 0.000000\r\n\r\n");
        Frame { header, body: buf }
    }

    /// The header and the body in one buffer, as written to a viewer.
    pub fn wire_bytes(&self) -> (r: Vec<u8>)
        ensures
            r@ == self.wire(),
    {
        let mut out: Vec<u8> = Vec::new();
        push_bytes(&mut out, self.header.as_slice());
        push_bytes(&mut out, self.body.as_slice());
        out
    }
}

/// Appends `b` to `out`.
pub fn push_bytes(out: &mut Vec<u8>, b: &[u8])
    ensures
        final(out)@ == old(out)@ + b@,
{
    let mut i: usize = 0;
    while i < b.len()
        invariant
            i <= b@.len(),
            out@ == old(out)@ + b@.subrange(0, i as int),
        decreases b@.len() - i,
    {
        out.push(b[i]);
        i = i + 1;
        assert(b@.subrange(0, i as int) == b@.subrange(0, i - 1) + seq![b@[i - 1]]);
    }
    assert(b@.subrange(0, i as int) == b@);
}

/// Appends the UTF-8 bytes of `s` to `out`.
fn push_str(out: &mut Vec<u8>, s: &str)
    ensures
        final(out)@ == old(out)@ + s.spec_bytes(),
{
    push_bytes(out, s.as_bytes());
}

/// Appends the decimal digits of `n` to `out`.
pub fn push_decimal(out: &mut Vec<u8>, n: usize)
    ensures
        final(out)@ == old(out)@ + decimal(n as nat),
    decreases n,
{
    if n >= 10 {
        push_decimal(out, n / 10);
    }
    out.push(ZERO_DIGIT + (n % 10) as u8);
    assert(old(out)@ + decimal(n as nat) == if n >= 10 {
        old(out)@ + decimal((n / 10) as nat) + seq![(ZERO_DIGIT + n % 10) as u8]
    } else {
        old(out)@ + seq![(ZERO_DIGIT + n % 10) as u8]
    });
}

/// Every digit of `decimal(n)` is a decimal digit, there is at least one,
/// and together they denote `n`.
pub proof fn lemma_decimal(n: nat)
    ensures
        decimal(n).len() > 0,
        forall|i: int| 0 <= i < decimal(n).len() ==> #[trigger] is_digit(decimal(n)[i]),
        digits_value(decimal(n)) == n,
    decreases n,
{
    if n >= 10 {
        lemma_decimal(n / 10);
        assert(decimal(n).drop_last() == decimal(n / 10));
        assert(decimal(n).last() - ZERO_DIGIT == n % 10);
        assert((n / 10) * 10 + n % 10 == n);
    } else {
        assert(decimal(n).drop_last() =~= Seq::<u8>::empty());
        assert(digits_value(Seq::<u8>::empty()) == 0);
        assert(decimal(n).last() - ZERO_DIGIT == n);
    }
}

/// A longer run of digits denotes at least as much as any of its prefixes.
proof fn lemma_digits_value_prefix(s: Seq<u8>, k: int)
    requires
        0 <= k <= s.len(),
    ensures
        digits_value(s.subrange(0, k)) <= digits_value(s),
    decreases s.len(),
{
    if k < s.len() {
        lemma_digits_value_prefix(s.drop_last(), k);
        assert(s.drop_last().subrange(0, k) == s.subrange(0, k));
    } else {
        assert(s.subrange(0, k) == s);
    }
}

/// Decoding the header that encoding a payload of `b.len()` bytes produces
/// gives back that length.
pub proof fn lemma_header_declares_length(b: Seq<u8>)
    ensures
        declared_length(header_for(b.len())) == Some(b.len()),
{
    let n = b.len();
    let h = header_for(n);
    let p = header_prefix().len();
    let s = header_suffix().len();
    lemma_decimal(n);
    assert(h.subrange(0, p as int) == header_prefix());
    assert(h.subrange(h.len() - s, h.len() as int) == header_suffix());
    assert(h.subrange(p as int, h.len() - s) == decimal(n));
    assert forall|i: int| p <= i < h.len() - s implies #[trigger] is_digit(h[i]) by {
        assert(h[i] == decimal(n)[i - p]);
    }
}

/// Reads the content length that a part header declares. `None` where the
/// header does not have the part header's shape, or the length does not
/// fit in a `usize`.
pub fn decode_content_length(h: &[u8]) -> (r: Option<usize>)
    ensures
        r matches Some(v) ==> declared_length(h@) == Some(v as nat),
        declared_length(h@) matches Some(v) ==> (v <= usize::MAX ==> r == Some(v as usize)),
{
    let prefix = "\r\n--MJPEGBOUNDARY\r\nContent-Length: ".as_bytes();
    let suffix = "\r\nX-Timestamp: 0.000000\r\n\r\n".as_bytes();
    let ghost hs = h@;
    let p = prefix.len();
    let s = suffix.len();
    if h.len() <= p || h.len() - p <= s {
        return None;
    }
    let end = h.len() - s;
    let mut i: usize = 0;
    while i < p
        invariant
            p == header_prefix().len(),
            prefix@ == header_prefix(),
            p < h@.len(),
            i <= p,
            forall|j: int| 0 <= j < i ==> h@[j] == prefix@[j],
        decreases p - i,
    {
        if h[i] != prefix[i] {
            assert(h@.subrange(0, p as int)[i as int] != header_prefix()[i as int]);
            return None;
        }
        i = i + 1;
    }
    assert(h@.subrange(0, p as int) == header_prefix());
    let mut k: usize = 0;
    while k < s
        invariant
            p == header_prefix().len(),
            s == header_suffix().len(),
            h@.subrange(0, p as int) == header_prefix(),
            p < end,
            suffix@ == header_suffix(),
            end + s == h@.len(),
            h@.len() == h.len(),
            k <= s,
            forall|j: int| 0 <= j < k ==> h@[end + j] == suffix@[j],
        decreases s - k,
    {
        if h[end + k] != suffix[k] {
            assert(h@.subrange(end as int, h@.len() as int)[k as int] != header_suffix()[k as int]);
            return None;
        }
        k = k + 1;
    }
    assert(h@.subrange(end as int, h@.len() as int) == header_suffix());
    let ghost digits = h@.subrange(p as int, end as int);
    let mut value: usize = 0;
    let mut j: usize = p;
    while j < end
        invariant
            p == header_prefix().len(),
            s == header_suffix().len(),
            h@.subrange(0, p as int) == header_prefix(),
            h@.subrange(end as int, h@.len() as int) == header_suffix(),
            p <= j <= end,
            end + s == h@.len(),
            digits == h@.subrange(p as int, end as int),
            forall|t: int| p <= t < j ==> #[trigger] is_digit(h@[t]),
            value as nat == digits_value(digits.subrange(0, j - p)),
        decreases end - j,
    {
        let d = h[j];
        if d < ZERO_DIGIT || d > ZERO_DIGIT + 9 {
            assert(!is_digit(h@[j as int]));
            return None;
        }
        assert(digits.subrange(0, j + 1 - p).drop_last() == digits.subrange(0, j - p));
        if value > (usize::MAX - (d - ZERO_DIGIT) as usize) / 10 {
            proof {
                let dv = (d - ZERO_DIGIT) as usize;
                assert(value * 10 + dv > usize::MAX) by (nonlinear_arith)
                    requires
                        value > (usize::MAX - dv) / 10,
                        dv <= 9,
                ;
                lemma_digits_value_prefix(digits, j + 1 - p);
            }
            return None;
        }
        value = value * 10 + (d - ZERO_DIGIT) as usize;
        j = j + 1;
    }
    assert(digits.subrange(0, end - p) == digits);
    Some(value)
}

} // verus!
