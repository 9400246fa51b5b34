use vstd::prelude::*;
use crate::outside::{base64_encode, base64_text, sha256, sha256_of, sha384, sha384_of, sha512, sha512_of, text_of, utf8_lossy};
use crate::pubkey::{encoding, fits_wire, PublicKey};

verus! {

/// The digests a fingerprint can be computed with.
#[derive(Debug, Clone, Copy, PartialEq, Eq, Structural)]
pub enum FingerprintKind {
    /// SHA-256, the OpenSSH default.
    Sha256,
    /// SHA-384.
    Sha384,
    /// SHA-512.
    Sha512,
}

/// The digest of `b` under `kind`.
pub open spec fn digest_of(kind: FingerprintKind, b: Seq<u8>) -> Seq<u8> {
    match kind {
        FingerprintKind::Sha256 => sha256_of(b),
        FingerprintKind::Sha384 => sha384_of(b),
        FingerprintKind::Sha512 => sha512_of(b),
    }
}

/// The label written before a fingerprint of this kind.
pub open spec fn kind_label(kind: FingerprintKind) -> Seq<u8> {
    match kind {
        FingerprintKind::Sha256 => seq![83, 72, 65, 50, 53, 54],
        FingerprintKind::Sha384 => seq![83, 72, 65, 51, 56, 52],
        FingerprintKind::Sha512 => seq![83, 72, 65, 53, 49, 50],
    }
}

/// The position of the first `=` in `s`, or its length where there is none.
pub open spec fn first_pad(s: Seq<u8>) -> int
    decreases s.len(),
{
    if s.len() == 0 {
        0
    } else if s[0] == 61u8 {
        0
    } else {
        1 + first_pad(s.drop_first())
    }
}

/// `s` up to its first `=`.
pub open spec fn strip_pad(s: Seq<u8>) -> Seq<u8> {
    s.subrange(0, first_pad(s))
}

proof fn lemma_first_pad(s: Seq<u8>, i: int)
    requires
        0 <= i <= s.len(),
        forall|j: int| 0 <= j < i ==> s[j] != 61u8,
        i == s.len() || s[i] == 61u8,
    ensures
        first_pad(s) == i,
    decreases i,
{
    if i > 0 {
        let t = s.drop_first();
        assert forall|j: int| 0 <= j < i - 1 implies t[j] != 61u8 by {
            assert(t[j] == s[j + 1]);
        }
        if i < s.len() {
            assert(t[i - 1] == s[i]);
        }
        lemma_first_pad(t, i - 1);
    }
}

/// Cuts `s` at its first `=`.
pub fn trim_padding(s: &[u8]) -> (r: Vec<u8>)
    ensures
        r@ == strip_pad(s@),
{
    let mut r: Vec<u8> = Vec::new();
    let mut i: usize = 0;
    while i < s.len() && s[i] != 61u8
        invariant
            i <= s@.len(),
            forall|j: int| 0 <= j < i ==> s@[j] != 61u8,
            r@ =~= s@.subrange(0, i as int),
        decreases s@.len() - i,
    {
        r.push(s[i]);
        i = i + 1;
    }
    proof {
        lemma_first_pad(s@, i as int);
    }
    r
}

impl FingerprintKind {
    /// The label written before a fingerprint of this kind, as ASCII bytes.
    pub fn label(&self) -> (r: Vec<u8>)
        ensures
            r@ == kind_label(*self),
    {
        let r = match self {
            FingerprintKind::Sha256 => vec![83u8, 72u8, 65u8, 50u8, 53u8, 54u8],
            FingerprintKind::Sha384 => vec![83u8, 72u8, 65u8, 51u8, 56u8, 52u8],
            FingerprintKind::Sha512 => vec![83u8, 72u8, 65u8, 53u8, 49u8, 50u8],
        };
        assert(r@ =~= kind_label(*self));
        r
    }
}

/// An OpenSSH public key fingerprint.
#[derive(Debug)]
pub struct Fingerprint {
    /// The digest used.
    pub kind: FingerprintKind,
    /// The digest in base64, without padding.
    pub hash: String,
}

/// The fingerprint text of `data` under `kind`: its digest in base64, cut at
/// the padding.
pub open spec fn fingerprint_text(kind: FingerprintKind, data: Seq<u8>) -> Seq<char> {
    utf8_lossy(strip_pad(base64_text(digest_of(kind, data))))
}

impl Fingerprint {
    /// Computes the fingerprint of `data` with the given digest.
    pub fn compute(kind: FingerprintKind, data: &[u8]) -> (r: Fingerprint)
        ensures
            r.kind == kind,
            r.hash@ == fingerprint_text(kind, data@),
    {
        let digest = match kind {
            FingerprintKind::Sha256 => sha256(data),
            FingerprintKind::Sha384 => sha384(data),
            FingerprintKind::Sha512 => sha512(data),
        };
        let encoded = base64_encode(digest.as_slice());
        let trimmed = trim_padding(encoded.as_slice());
        Fingerprint { kind, hash: text_of(trimmed.as_slice()) }
    }
}

impl PublicKey {
    /// The fingerprint of the key with SHA-256, the OpenSSH default.
    pub fn fingerprint(&self) -> (r: Fingerprint)
        requires
            fits_wire(self.kind@),
        ensures
            r.kind == FingerprintKind::Sha256,
            r.hash@ == fingerprint_text(
                FingerprintKind::Sha256,
                encoding(self.key_type.algorithm, self.kind@),
            ),
    {
        self.fingerprint_with(FingerprintKind::Sha256)
    }

    /// The fingerprint of the key with the given digest.
    pub fn fingerprint_with(&self, kind: FingerprintKind) -> (r: Fingerprint)
        requires
            fits_wire(self.kind@),
        ensures
            r.kind == kind,
            r.hash@ == fingerprint_text(kind, encoding(self.key_type.algorithm, self.kind@)),
    {
        let bytes = self.encode();
        Fingerprint::compute(kind, bytes.as_slice())
    }
}

} // verus!
