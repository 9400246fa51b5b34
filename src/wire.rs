use vstd::prelude::*;
use crate::error::{Error, ErrorKind, Failure};

verus! {

/// The big-endian 32-bit number held in `s[p..p + 4]`.
#[verifier::opaque]
pub open spec fn be_u32(s: Seq<u8>, p: int) -> nat {
    (s[p] as nat) * 16777216 + (s[p + 1] as nat) * 65536 + (s[p + 2] as nat) * 256 + (s[p + 3] as nat)
}

/// The four big-endian bytes of `v`.
pub open spec fn u32_bytes(v: nat) -> Seq<u8> {
    seq![
        ((v / 16777216) % 256) as u8,
        ((v / 65536) % 256) as u8,
        ((v / 256) % 256) as u8,
        (v % 256) as u8,
    ]
}

/// A length-prefixed blob: its length in four bytes, then the bytes.
#[verifier::opaque]
pub open spec fn blob(b: Seq<u8>) -> Seq<u8> {
    u32_bytes(b.len()) + b
}

/// The blob that starts at `p`, and the position after it. A missing length
/// prefix is `Truncated`; a length past the end of `s` is the error `short`.
pub open spec fn blob_at(s: Seq<u8>, p: int, short: Failure) -> Result<(Seq<u8>, int), Failure> {
    if p + 4 > s.len() {
        Err(Failure::Truncated)
    } else if p + 4 + be_u32(s, p) > s.len() {
        Err(short)
    } else {
        Ok((s.subrange(p + 4, p + 4 + be_u32(s, p)), p + 4 + be_u32(s, p)))
    }
}

/// Whether `b` begins with a zero byte that only keeps a set high bit from
/// reading as a sign.
pub open spec fn has_sign_pad(b: Seq<u8>) -> bool {
    b.len() >= 2 && b[0] == 0 && b[1] >= 128
}

/// The magnitude that an mpint payload stands for: the payload without its
/// sign-padding byte.
pub open spec fn mpint_magnitude(b: Seq<u8>) -> Seq<u8> {
    if has_sign_pad(b) {
        b.drop_first()
    } else {
        b
    }
}

/// The payload written for a magnitude: a zero byte in front where the first
/// byte has its high bit set.
#[verifier::opaque]
pub open spec fn mpint_payload(m: Seq<u8>) -> Seq<u8> {
    if m.len() > 0 && m[0] >= 128 {
        seq![0u8] + m
    } else {
        m
    }
}

/// The mpint that starts at `p`.
pub open spec fn mpint_at(s: Seq<u8>, p: int) -> Result<(Seq<u8>, int), Failure> {
    match blob_at(s, p, Failure::Truncated) {
        Ok((b, q)) => Ok((mpint_magnitude(b), q)),
        Err(e) => Err(e),
    }
}

/// The four bytes of a 32-bit value read back as that value.
pub proof fn lemma_u32_bytes(v: nat)
    requires
        v <= u32::MAX,
    ensures
        be_u32(u32_bytes(v), 0) == v,
        u32_bytes(v).len() == 4,
{
    reveal(be_u32);
    let s = u32_bytes(v);
    assert(s[0] as nat == (v / 16777216) % 256);
    assert(s[1] as nat == (v / 65536) % 256);
    assert(s[2] as nat == (v / 256) % 256);
    assert(s[3] as nat == v % 256);
    assert((v / 16777216) % 256 * 16777216 + (v / 65536) % 256 * 65536 + (v / 256) % 256 * 256
        + v % 256 == v) by (nonlinear_arith)
        requires v <= u32::MAX;
}

/// A blob read back from where `blob(b)` stands in `x + blob(b) + rest` gives `b`.
pub proof fn lemma_blob_at(x: Seq<u8>, b: Seq<u8>, rest: Seq<u8>, short: Failure)
    requires
        b.len() <= u32::MAX,
    ensures
        blob_at(x + blob(b) + rest, x.len() as int, short) == Ok::<(Seq<u8>, int), Failure>(
            (b, x.len() + 4 + b.len() as int),
        ),
        blob(b).len() == 4 + b.len(),
{
    let s = x + blob(b) + rest;
    let p = x.len() as int;
    let u = u32_bytes(b.len());
    lemma_u32_bytes(b.len());
    reveal(be_u32);
    reveal(blob);
    assert(s[p] == u[0] && s[p + 1] == u[1] && s[p + 2] == u[2] && s[p + 3] == u[3]);
    assert(be_u32(s, p) == be_u32(u, 0));
    assert(s.subrange(p + 4, p + 4 + b.len()) =~= b);
}

/// An mpint read back from where it was written gives the magnitude.
pub proof fn lemma_mpint_at(x: Seq<u8>, m: Seq<u8>, rest: Seq<u8>)
    requires
        m.len() < u32::MAX,
        !has_sign_pad(m),
    ensures
        mpint_at(x + blob(mpint_payload(m)) + rest, x.len() as int) == Ok::<(Seq<u8>, int), Failure>(
            (m, x.len() + 4 + mpint_payload(m).len() as int),
        ),
        blob(mpint_payload(m)).len() == 4 + mpint_payload(m).len(),
{
    reveal(mpint_payload);
    lemma_blob_at(x, mpint_payload(m), rest, Failure::Truncated);
    lemma_mpint_round_trip(m);
}

/// A blob that reads successfully lies within the input.
pub proof fn lemma_blob_within(s: Seq<u8>, p: int, short: Failure)
    requires
        0 <= p,
        blob_at(s, p, short) is Ok,
    ensures
        blob_at(s, p, short)->Ok_0.0.len() + 4 <= s.len() - p,
{
}

/// Writing a magnitude and reading it back gives the magnitude.
pub proof fn lemma_mpint_round_trip(m: Seq<u8>)
    requires
        !has_sign_pad(m),
    ensures
        mpint_magnitude(mpint_payload(m)) == m,
{
    reveal(mpint_payload);
    if m.len() > 0 && m[0] >= 128 {
        assert((seq![0u8] + m).drop_first() =~= m);
    }
}

/// A magnitude read from an mpint never begins with a sign pad of its own.
pub proof fn lemma_magnitude_unpadded(b: Seq<u8>)
    ensures
        !has_sign_pad(mpint_magnitude(b)),
        mpint_magnitude(b).len() <= b.len(),
{
}

/// A sequential reader over a byte buffer; its position only moves forward.
pub struct Reader<'a> {
    data: &'a [u8],
    offset: usize,
}

impl<'a> Reader<'a> {
    /// The bytes being read.
    pub closed spec fn data(&self) -> Seq<u8> {
        self.data@
    }

    /// The position of the next read.
    pub closed spec fn pos(&self) -> int {
        self.offset as int
    }

    pub closed spec fn wf(&self) -> bool {
        self.offset <= self.data@.len()
    }

    /// A reader at the start of `data`.
    pub fn new(data: &'a [u8]) -> (r: Reader<'a>)
        ensures
            r.wf(),
            r.data() == data@,
            r.pos() == 0,
    {
        Reader { data, offset: 0 }
    }

    /// Reads a big-endian `u32`.
    pub fn read_u32(&mut self) -> (r: Result<u32, Error>)
        requires
            old(self).wf(),
        ensures
            final(self).wf(),
            final(self).data() == old(self).data(),
            old(self).pos() + 4 <= old(self).data().len() ==> r is Ok && r->Ok_0 as nat == be_u32(
                old(self).data(),
                old(self).pos(),
            ) && final(self).pos() == old(self).pos() + 4,
            old(self).pos() + 4 > old(self).data().len() ==> r is Err && r->Err_0@ == Failure::Truncated
                && final(self).pos() == old(self).pos(),
    {
        if self.data.len() - self.offset < 4 {
            return Err(Error::with_kind(ErrorKind::Truncated));
        }
        let p = self.offset;
        let b0 = self.data[p] as u32;
        let b1 = self.data[p + 1] as u32;
        let b2 = self.data[p + 2] as u32;
        let b3 = self.data[p + 3] as u32;
        assert(b0 * 16777216 + b1 * 65536 + b2 * 256 + b3 <= u32::MAX) by (nonlinear_arith)
            requires b0 < 256, b1 < 256, b2 < 256, b3 < 256;
        self.offset = p + 4;
        proof {
            reveal(be_u32);
        }
        Ok(b0 * 16777216 + b1 * 65536 + b2 * 256 + b3)
    }

    /// Reads a length prefix and that many bytes; `short` is the error for a
    /// length past the end of the input.
    fn read_blob(&mut self, short: ErrorKind) -> (r: Result<Vec<u8>, Error>)
        requires
            old(self).wf(),
        ensures
            final(self).wf(),
            final(self).data() == old(self).data(),
            match blob_at(old(self).data(), old(self).pos(), short@) {
                Ok((b, q)) => r is Ok && r->Ok_0@ == b && final(self).pos() == q,
                Err(e) => r is Err && r->Err_0@ == e,
            },
    {
        let n = self.read_u32()?;
        let n = n as usize;
        if self.data.len() - self.offset < n {
            return Err(Error::with_kind(short));
        }
        let start = self.offset;
        let end = start + n;
        let mut out: Vec<u8> = Vec::new();
        let mut i: usize = start;
        while i < end
            invariant
                self.wf(),
                end == start + n,
                start <= i <= end <= self.data@.len(),
                out@ =~= self.data@.subrange(start as int, i as int),
            decreases end - i,
        {
            out.push(self.data[i]);
            i = i + 1;
        }
        self.offset = end;
        Ok(out)
    }

    /// Reads a length-prefixed opaque byte blob.
    pub fn read_bytes(&mut self) -> (r: Result<Vec<u8>, Error>)
        requires
            old(self).wf(),
        ensures
            final(self).wf(),
            final(self).data() == old(self).data(),
            match blob_at(old(self).data(), old(self).pos(), Failure::Truncated) {
                Ok((b, q)) => r is Ok && r->Ok_0@ == b && final(self).pos() == q,
                Err(e) => r is Err && r->Err_0@ == e,
            },
    {
        self.read_blob(ErrorKind::Truncated)
    }

    /// Reads a length-prefixed textual identifier, as its bytes.
    pub fn read_string(&mut self) -> (r: Result<Vec<u8>, Error>)
        requires
            old(self).wf(),
        ensures
            final(self).wf(),
            final(self).data() == old(self).data(),
            match blob_at(old(self).data(), old(self).pos(), Failure::InvalidFormat) {
                Ok((b, q)) => r is Ok && r->Ok_0@ == b && final(self).pos() == q,
                Err(e) => r is Err && r->Err_0@ == e,
            },
    {
        self.read_blob(ErrorKind::InvalidFormat)
    }

    /// Reads a multi-precision integer and returns its magnitude, without the
    /// sign-padding byte.
    pub fn read_mpint(&mut self) -> (r: Result<Vec<u8>, Error>)
        requires
            old(self).wf(),
        ensures
            final(self).wf(),
            final(self).data() == old(self).data(),
            match mpint_at(old(self).data(), old(self).pos()) {
                Ok((m, q)) => r is Ok && r->Ok_0@ == m && final(self).pos() == q,
                Err(e) => r is Err && r->Err_0@ == e,
            },
    {
        let b = self.read_blob(ErrorKind::Truncated)?;
        if b.len() >= 2 && b[0] == 0 && b[1] >= 128 {
            let mut out: Vec<u8> = Vec::new();
            let mut i: usize = 1;
            while i < b.len()
                invariant
                    1 <= i <= b@.len(),
                    out@ =~= b@.subrange(1, i as int),
                decreases b@.len() - i,
            {
                out.push(b[i]);
                i = i + 1;
            }
            Ok(out)
        } else {
            Ok(b)
        }
    }
}

/// An append-only byte sink for the wire encodings.
pub struct Writer {
    data: Vec<u8>,
}

impl Writer {
    /// What has been written so far.
    pub closed spec fn bytes(&self) -> Seq<u8> {
        self.data@
    }

    /// An empty writer.
    pub fn new() -> (r: Writer)
        ensures
            r.bytes() == Seq::<u8>::empty(),
    {
        Writer { data: Vec::new() }
    }

    /// Appends `v` as four big-endian bytes.
    pub fn write_u32(&mut self, v: u32)
        ensures
            final(self).bytes() == old(self).bytes() + u32_bytes(v as nat),
    {
        self.data.push(((v / 16777216) % 256) as u8);
        self.data.push(((v / 65536) % 256) as u8);
        self.data.push(((v / 256) % 256) as u8);
        self.data.push((v % 256) as u8);
        assert(self.data@ =~= old(self).data@ + u32_bytes(v as nat));
    }

    /// Appends `b` as a length-prefixed blob.
    pub fn write_bytes(&mut self, b: &[u8])
        requires
            b@.len() <= u32::MAX,
        ensures
            final(self).bytes() == old(self).bytes() + blob(b@),
    {
        self.write_u32(b.len() as u32);
        let ghost mid = self.data@;
        let mut i: usize = 0;
        while i < b.len()
            invariant
                i <= b@.len(),
                self.data@ =~= mid + b@.subrange(0, i as int),
            decreases b@.len() - i,
        {
            self.data.push(b[i]);
            i = i + 1;
        }
        assert(b@.subrange(0, b@.len() as int) =~= b@);
        reveal(blob);
        assert(self.data@ =~= old(self).data@ + blob(b@));
    }

    /// Appends the bytes of a textual identifier as a length-prefixed string.
    pub fn write_string(&mut self, s: &[u8])
        requires
            s@.len() <= u32::MAX,
        ensures
            final(self).bytes() == old(self).bytes() + blob(s@),
    {
        self.write_bytes(s)
    }

    /// Appends a magnitude as an mpint, with a zero byte in front where its
    /// first byte has the high bit set.
    pub fn write_mpint(&mut self, m: &[u8])
        requires
            m@.len() < u32::MAX,
        ensures
            final(self).bytes() == old(self).bytes() + blob(mpint_payload(m@)),
    {
        reveal(mpint_payload);
        if m.len() > 0 && m[0] >= 128 {
            let mut p: Vec<u8> = Vec::new();
            p.push(0u8);
            let mut i: usize = 0;
            while i < m.len()
                invariant
                    i <= m@.len(),
                    p@ =~= seq![0u8] + m@.subrange(0, i as int),
                decreases m@.len() - i,
            {
                p.push(m[i]);
                i = i + 1;
            }
            assert(m@.subrange(0, m@.len() as int) =~= m@);
            self.write_bytes(p.as_slice());
        } else {
            self.write_bytes(m);
        }
    }

    /// Hands over the bytes written.
    pub fn into_bytes(self) -> (r: Vec<u8>)
        ensures
            r@ == self.bytes(),
    {
        self.data
    }
}

} // verus!
