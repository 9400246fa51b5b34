use vstd::prelude::*;
use vstd::string::{StringExecFns, StringSliceAdditionalSpecFns};
use crate::error::{Error, ErrorKind, Failure};
use crate::keytype::{bytes_eq, family_of, key_type_named, plain_name, Algorithm, KeyFamily, KeyType};
use crate::outside::{base64_decode, base64_decoded, split_words, text_of, utf8_lossy, words_of};
use crate::wire::{blob, blob_at, mpint_at, mpint_payload, Reader, Writer};

verus! {

/// The supported elliptic curves.
#[derive(Debug, Clone, Copy, PartialEq, Eq, Structural)]
pub enum CurveKind {
    /// NIST P-256.
    Nistp256,
    /// NIST P-384.
    Nistp384,
    /// NIST P-521.
    Nistp521,
}

/// An elliptic curve named in ECDSA key material.
#[derive(Debug, Clone, Copy, PartialEq, Eq, Structural)]
pub struct Curve {
    /// The curve kind.
    pub kind: CurveKind,
}

/// The identifier of a curve on the wire.
pub open spec fn curve_identifier(c: CurveKind) -> Seq<u8> {
    match c {
        CurveKind::Nistp256 => seq![110, 105, 115, 116, 112, 50, 53, 54],
        CurveKind::Nistp384 => seq![110, 105, 115, 116, 112, 51, 56, 52],
        CurveKind::Nistp521 => seq![110, 105, 115, 116, 112, 53, 50, 49],
    }
}

/// The curve that an identifier names, if any.
pub open spec fn curve_named(id: Seq<u8>) -> Option<CurveKind> {
    if id == curve_identifier(CurveKind::Nistp256) {
        Some(CurveKind::Nistp256)
    } else if id == curve_identifier(CurveKind::Nistp384) {
        Some(CurveKind::Nistp384)
    } else if id == curve_identifier(CurveKind::Nistp521) {
        Some(CurveKind::Nistp521)
    } else {
        None
    }
}

/// The identifier of a curve, as bytes.
fn curve_identifier_bytes(c: CurveKind) -> (r: Vec<u8>)
    ensures
        r@ == curve_identifier(c),
{
    let r = match c {
        CurveKind::Nistp256 => vec![110u8, 105u8, 115u8, 116u8, 112u8, 50u8, 53u8, 54u8],
        CurveKind::Nistp384 => vec![110u8, 105u8, 115u8, 116u8, 112u8, 51u8, 56u8, 52u8],
        CurveKind::Nistp521 => vec![110u8, 105u8, 115u8, 116u8, 112u8, 53u8, 50u8, 49u8],
    };
    assert(r@ =~= curve_identifier(c));
    r
}

/// Looks up the curve that the identifier bytes name.
fn curve_from_bytes(id: &[u8]) -> (r: Option<CurveKind>)
    ensures
        r == curve_named(id@),
{
    let a = curve_identifier_bytes(CurveKind::Nistp256);
    if bytes_eq(id, a.as_slice()) {
        return Some(CurveKind::Nistp256);
    }
    let b = curve_identifier_bytes(CurveKind::Nistp384);
    if bytes_eq(id, b.as_slice()) {
        return Some(CurveKind::Nistp384);
    }
    let c = curve_identifier_bytes(CurveKind::Nistp521);
    if bytes_eq(id, c.as_slice()) {
        return Some(CurveKind::Nistp521);
    }
    None
}

impl Curve {
    /// Creates a `Curve` from its identifier.
    pub fn from_identifier(id: &str) -> (r: Result<Curve, Error>)
        ensures
            match curve_named(id.spec_bytes()) {
                Some(c) => r is Ok && r->Ok_0.kind == c,
                None => r is Err && r->Err_0@ == Failure::UnknownCurve(id@),
            },
    {
        match curve_from_bytes(id.as_bytes()) {
            Some(kind) => Ok(Curve { kind }),
            None => Err(Error::with_kind(ErrorKind::UnknownCurve(id.to_owned()))),
        }
    }

    /// The identifier of this curve, as bytes.
    pub fn identifier(&self) -> (r: Vec<u8>)
        ensures
            r@ == curve_identifier(self.kind),
    {
        curve_identifier_bytes(self.kind)
    }
}

/// RSA public key (RFC 4253, section 6.6).
#[derive(Debug, Clone, PartialEq)]
pub struct RsaPublicKey {
    /// Exponent of key.
    pub e: Vec<u8>,
    /// Modulus of key.
    pub n: Vec<u8>,
}

/// DSA public key (RFC 4253, section 6.6).
#[derive(Debug, Clone, PartialEq)]
pub struct DsaPublicKey {
    /// Parameter `p`.
    pub p: Vec<u8>,
    /// Parameter `q`.
    pub q: Vec<u8>,
    /// Parameter `g`.
    pub g: Vec<u8>,
    /// Parameter `y`.
    pub y: Vec<u8>,
}

/// ECDSA public key (RFC 5656, section 3.1).
#[derive(Debug, Clone, PartialEq)]
pub struct EcdsaPublicKey {
    /// The curve being used.
    pub curve: Curve,
    /// The public point.
    pub key: Vec<u8>,
}

/// ED25519 public key.
#[derive(Debug, Clone, PartialEq)]
pub struct Ed25519PublicKey {
    /// The public key.
    pub key: Vec<u8>,
}

/// The different kinds a public key can be.
#[derive(Debug, Clone, PartialEq)]
pub enum PublicKeyKind {
    Rsa(RsaPublicKey),
    Dsa(DsaPublicKey),
    Ecdsa(EcdsaPublicKey),
    Ed25519(Ed25519PublicKey),
}

/// The key material of a public key, as mathematical values.
pub enum KeyModel {
    Rsa { e: Seq<u8>, n: Seq<u8> },
    Dsa { p: Seq<u8>, q: Seq<u8>, g: Seq<u8>, y: Seq<u8> },
    Ecdsa { curve: CurveKind, key: Seq<u8> },
    Ed25519 { key: Seq<u8> },
}

impl View for PublicKeyKind {
    type V = KeyModel;

    open spec fn view(&self) -> KeyModel {
        match self {
            PublicKeyKind::Rsa(k) => KeyModel::Rsa { e: k.e@, n: k.n@ },
            PublicKeyKind::Dsa(k) => KeyModel::Dsa { p: k.p@, q: k.q@, g: k.g@, y: k.y@ },
            PublicKeyKind::Ecdsa(k) => KeyModel::Ecdsa { curve: k.curve.kind, key: k.key@ },
            PublicKeyKind::Ed25519(k) => KeyModel::Ed25519 { key: k.key@ },
        }
    }
}

/// The family of some key material.
pub open spec fn model_family(m: KeyModel) -> KeyFamily {
    match m {
        KeyModel::Rsa { .. } => KeyFamily::Rsa,
        KeyModel::Dsa { .. } => KeyFamily::Dsa,
        KeyModel::Ecdsa { .. } => KeyFamily::Ecdsa,
        KeyModel::Ed25519 { .. } => KeyFamily::Ed25519,
    }
}

/// The fields of a key of family `f` that start at `p` in `s`, in wire order.
pub open spec fn fields_at(f: KeyFamily, s: Seq<u8>, p: int) -> Result<KeyModel, Failure> {
    match f {
        KeyFamily::Rsa => match mpint_at(s, p) {
            Err(x) => Err(x),
            Ok((e, at1)) => match mpint_at(s, at1) {
                Err(x) => Err(x),
                Ok((n, _)) => Ok(KeyModel::Rsa { e, n }),
            },
        },
        KeyFamily::Dsa => match mpint_at(s, p) {
            Err(x) => Err(x),
            Ok((dp, at1)) => match mpint_at(s, at1) {
                Err(x) => Err(x),
                Ok((dq, at2)) => match mpint_at(s, at2) {
                    Err(x) => Err(x),
                    Ok((dg, at3)) => match mpint_at(s, at3) {
                        Err(x) => Err(x),
                        Ok((dy, _)) => Ok(KeyModel::Dsa { p: dp, q: dq, g: dg, y: dy }),
                    },
                },
            },
        },
        KeyFamily::Ecdsa => match blob_at(s, p, Failure::InvalidFormat) {
            Err(x) => Err(x),
            Ok((id, at1)) => match curve_named(id) {
                None => Err(Failure::UnknownCurve(utf8_lossy(id))),
                Some(c) => match blob_at(s, at1, Failure::Truncated) {
                    Err(x) => Err(x),
                    Ok((key, _)) => Ok(KeyModel::Ecdsa { curve: c, key }),
                },
            },
        },
        KeyFamily::Ed25519 => match blob_at(s, p, Failure::Truncated) {
            Err(x) => Err(x),
            Ok((key, _)) => Ok(KeyModel::Ed25519 { key }),
        },
    }
}

/// A key whose type has wire name `name` and whose fields start at `p` in `s`.
pub open spec fn named_key_at(name: Seq<u8>, s: Seq<u8>, p: int) -> Result<(KeyType, KeyModel), Failure> {
    match key_type_named(name) {
        None => Err(Failure::UnknownKeyType(utf8_lossy(name))),
        Some(kt) => match fields_at(family_of(kt.algorithm), s, p) {
            Err(x) => Err(x),
            Ok(m) => Ok((kt, m)),
        },
    }
}

/// The key that a wire body holds: its type name, then its fields.
pub open spec fn body_decode(s: Seq<u8>) -> Result<(KeyType, KeyModel), Failure> {
    match blob_at(s, 0, Failure::InvalidFormat) {
        Err(x) => Err(x),
        Ok((name, p)) => named_key_at(name, s, p),
    }
}

/// Words joined by single spaces.
pub open spec fn joined(ws: Seq<Seq<char>>) -> Seq<char>
    decreases ws.len(),
{
    if ws.len() == 0 {
        Seq::empty()
    } else if ws.len() == 1 {
        ws[0]
    } else {
        joined(ws.drop_last()) + seq![' '] + ws.last()
    }
}

/// The key that the text form `<type> <base64 body> [comment]` holds, given
/// its words, with the comment.
pub open spec fn text_decode(w: Seq<Seq<char>>) -> Result<(KeyType, KeyModel, Option<Seq<char>>), Failure> {
    if w.len() < 2 {
        Err(Failure::InvalidFormat)
    } else {
        let label = vstd::utf8::encode_utf8(w[0]);
        match key_type_named(label) {
            None => Err(Failure::UnknownKeyType(w[0])),
            Some(kt) => match base64_decoded(vstd::utf8::encode_utf8(w[1])) {
                None => Err(Failure::Base64),
                Some(body) => match blob_at(body, 0, Failure::InvalidFormat) {
                    Err(x) => Err(x),
                    Ok((name, p)) => if name != label {
                        Err(Failure::KeyTypeMismatch)
                    } else {
                        match fields_at(family_of(kt.algorithm), body, p) {
                            Err(x) => Err(x),
                            Ok(m) => Ok((kt, m, if w.len() > 2 { Some(joined(w.subrange(2, w.len() as int))) } else { None })),
                        }
                    },
                },
            },
        }
    }
}

/// The canonical wire encoding of a key: its bare type name, then its fields.
pub open spec fn encoding(a: Algorithm, m: KeyModel) -> Seq<u8> {
    blob(plain_name(a)) + fields_encoding(m)
}

/// The wire encoding of the fields of some key material, in wire order.
pub open spec fn fields_encoding(m: KeyModel) -> Seq<u8> {
    match m {
        KeyModel::Rsa { e, n } => blob(mpint_payload(e)) + blob(mpint_payload(n)),
        KeyModel::Dsa { p, q, g, y } => blob(mpint_payload(p)) + blob(mpint_payload(q)) + blob(
            mpint_payload(g),
        ) + blob(mpint_payload(y)),
        KeyModel::Ecdsa { curve, key } => blob(curve_identifier(curve)) + blob(key),
        KeyModel::Ed25519 { key } => blob(key),
    }
}

/// Whether every field of the key material fits a 32-bit length, with room
/// for a sign-padding byte.
pub open spec fn fits_wire(m: KeyModel) -> bool {
    match m {
        KeyModel::Rsa { e, n } => e.len() < u32::MAX && n.len() < u32::MAX,
        KeyModel::Dsa { p, q, g, y } => p.len() < u32::MAX && q.len() < u32::MAX && g.len() < u32::MAX
            && y.len() < u32::MAX,
        KeyModel::Ecdsa { key, .. } => key.len() <= u32::MAX,
        KeyModel::Ed25519 { key } => key.len() <= u32::MAX,
    }
}

/// The declared size of a key in bits.
pub open spec fn key_bits(m: KeyModel) -> nat {
    match m {
        KeyModel::Rsa { n, .. } => 8 * n.len(),
        KeyModel::Dsa { p, .. } => 8 * p.len(),
        KeyModel::Ecdsa { curve, .. } => match curve {
            CurveKind::Nistp256 => 256,
            CurveKind::Nistp384 => 384,
            CurveKind::Nistp521 => 521,
        },
        KeyModel::Ed25519 { .. } => 256,
    }
}

/// An OpenSSH public key.
#[derive(Debug, Clone)]
pub struct PublicKey {
    /// Type of public key.
    pub key_type: KeyType,
    /// The kind of public key.
    pub kind: PublicKeyKind,
    /// Associated comment, if any.
    pub comment: Option<String>,
}

impl PublicKey {
    /// The key's type and its material agree in family.
    pub open spec fn wf(&self) -> bool {
        family_of(self.key_type.algorithm) == model_family(self.kind@)
    }

    /// Reads the fields of a key whose type has wire name `kt_name`, as a
    /// certificate reader does for the key inside it.
    pub fn from_reader(kt_name: &[u8], reader: &mut Reader) -> (r: Result<PublicKey, Error>)
        requires
            old(reader).wf(),
        ensures
            final(reader).wf(),
            final(reader).data() == old(reader).data(),
            match named_key_at(kt_name@, old(reader).data(), old(reader).pos()) {
                Ok((kt, m)) => r is Ok && r->Ok_0.key_type == kt && r->Ok_0.kind@ == m
                    && r->Ok_0.comment is None && r->Ok_0.wf(),
                Err(x) => r is Err && r->Err_0@ == x,
            },
    {
        let kt = match KeyType::from_name(kt_name) {
            Some(kt) => kt,
            None => {
                return Err(Error::with_kind(ErrorKind::UnknownKeyType(text_of(kt_name))));
            },
        };
        let kind = match kt.family() {
            KeyFamily::Rsa => {
                let e = reader.read_mpint()?;
                let n = reader.read_mpint()?;
                PublicKeyKind::Rsa(RsaPublicKey { e, n })
            },
            KeyFamily::Dsa => {
                let p = reader.read_mpint()?;
                let q = reader.read_mpint()?;
                let g = reader.read_mpint()?;
                let y = reader.read_mpint()?;
                PublicKeyKind::Dsa(DsaPublicKey { p, q, g, y })
            },
            KeyFamily::Ecdsa => {
                let id = reader.read_string()?;
                let curve = match curve_from_bytes(id.as_slice()) {
                    Some(kind) => Curve { kind },
                    None => {
                        return Err(Error::with_kind(ErrorKind::UnknownCurve(text_of(id.as_slice()))));
                    },
                };
                let key = reader.read_bytes()?;
                PublicKeyKind::Ecdsa(EcdsaPublicKey { curve, key })
            },
            KeyFamily::Ed25519 => {
                let key = reader.read_bytes()?;
                PublicKeyKind::Ed25519(Ed25519PublicKey { key })
            },
        };
        Ok(PublicKey { key_type: kt, kind, comment: None })
    }

    /// Reads a public key from its wire body (the base64-decoded bytes).
    pub fn from_bytes(data: &[u8]) -> (r: Result<PublicKey, Error>)
        ensures
            match body_decode(data@) {
                Ok((kt, m)) => r is Ok && r->Ok_0.key_type == kt && r->Ok_0.kind@ == m
                    && r->Ok_0.comment is None && r->Ok_0.wf(),
                Err(x) => r is Err && r->Err_0@ == x,
            },
    {
        let mut reader = Reader::new(data);
        let kt_name = reader.read_string()?;
        PublicKey::from_reader(kt_name.as_slice(), &mut reader)
    }

    /// Reads a public key from its text form `<type> <base64 body> [comment]`.
    pub fn from_string(contents: &str) -> (r: Result<PublicKey, Error>)
        ensures
            match text_decode(words_of(contents@)) {
                Ok((kt, m, c)) => r is Ok && r->Ok_0.key_type == kt && r->Ok_0.kind@ == m
                    && r->Ok_0.wf() && match c {
                        Some(t) => r->Ok_0.comment is Some && r->Ok_0.comment->Some_0@ == t,
                        None => r->Ok_0.comment is None,
                    },
                Err(x) => r is Err && r->Err_0@ == x,
            },
    {
        let words = split_words(contents);
        if words.len() < 2 {
            return Err(Error::with_kind(ErrorKind::InvalidFormat));
        }
        let ghost w = words_of(contents@);
        assert(words@[0]@ == w[0] && words@[1]@ == w[1]);
        let label = words[0].as_str().as_bytes();
        let kt = match KeyType::from_name(label) {
            Some(kt) => kt,
            None => {
                return Err(Error::with_kind(ErrorKind::UnknownKeyType(words[0].clone())));
            },
        };
        let body = match base64_decode(words[1].as_str().as_bytes()) {
            Ok(b) => b,
            Err(_) => {
                return Err(Error::with_kind(ErrorKind::Base64Error));
            },
        };
        let mut reader = Reader::new(body.as_slice());
        let name = reader.read_string()?;
        if !bytes_eq(name.as_slice(), label) {
            return Err(Error::with_kind(ErrorKind::KeyTypeMismatch));
        }
        let k = PublicKey::from_reader(label, &mut reader)?;
        let comment = if words.len() > 2 {
            let mut c = words[2].clone();
            let mut i: usize = 3;
            proof {
                assert(w.subrange(2, 3) =~= seq![w[2]]);
            }
            while i < words.len()
                invariant
                    3 <= i <= words@.len(),
                    words@.len() == w.len(),
                    forall|j: int| 0 <= j < words@.len() ==> #[trigger] words@[j]@ == w[j],
                    c@ == joined(w.subrange(2, i as int)),
                decreases words@.len() - i,
            {
                proof {
                    reveal_strlit(" ");
                    assert(w.subrange(2, i + 1).drop_last() =~= w.subrange(2, i as int));
                    assert(words@[i as int]@ == w[i as int]);
                }
                c.append(" ");
                c.append(words[i].as_str());
                i = i + 1;
            }
            Some(c)
        } else {
            None
        };
        Ok(PublicKey { key_type: kt, kind: k.kind, comment })
    }

    /// Whether the key can be encoded and its size stated in a `usize`: every
    /// field fits a 32-bit length.
    pub fn is_encodable(&self) -> (r: bool)
        ensures
            r == (fits_wire(self.kind@) && key_bits(self.kind@) <= usize::MAX),
    {
        match &self.kind {
            PublicKeyKind::Rsa(k) => k.e.len() < 0xffff_ffff && k.n.len() < 0xffff_ffff && k.n.len() <= usize::MAX / 8,
            PublicKeyKind::Dsa(k) => k.p.len() < 0xffff_ffff && k.q.len() < 0xffff_ffff && k.g.len()
                < 0xffff_ffff && k.y.len() < 0xffff_ffff && k.p.len() <= usize::MAX / 8,
            PublicKeyKind::Ecdsa(k) => k.key.len() <= 0xffff_ffff,
            PublicKeyKind::Ed25519(k) => k.key.len() <= 0xffff_ffff,
        }
    }

    /// The declared size of the key in bits.
    pub fn bits(&self) -> (r: usize)
        requires
            key_bits(self.kind@) <= usize::MAX,
        ensures
            r == key_bits(self.kind@),
    {
        match &self.kind {
            PublicKeyKind::Rsa(k) => k.n.len() * 8,
            PublicKeyKind::Dsa(k) => k.p.len() * 8,
            PublicKeyKind::Ecdsa(k) => match k.curve.kind {
                CurveKind::Nistp256 => 256,
                CurveKind::Nistp384 => 384,
                CurveKind::Nistp521 => 521,
            },
            PublicKeyKind::Ed25519(_) => 256,
        }
    }

    /// Encodes the key in the OpenSSH wire format, under its bare type name.
    #[verifier::rlimit(30)]
    pub fn encode(&self) -> (r: Vec<u8>)
        requires
            fits_wire(self.kind@),
        ensures
            r@ == encoding(self.key_type.algorithm, self.kind@),
    {
        let mut w = Writer::new();
        let plain = self.key_type.plain();
        w.write_string(plain.as_slice());
        let ghost h = w.bytes();
        match &self.kind {
            PublicKeyKind::Rsa(k) => {
                w.write_mpint(k.e.as_slice());
                w.write_mpint(k.n.as_slice());
                assert(w.bytes() =~= h + fields_encoding(self.kind@));
            },
            PublicKeyKind::Dsa(k) => {
                w.write_mpint(k.p.as_slice());
                w.write_mpint(k.q.as_slice());
                w.write_mpint(k.g.as_slice());
                w.write_mpint(k.y.as_slice());
                assert(w.bytes() =~= h + fields_encoding(self.kind@));
            },
            PublicKeyKind::Ecdsa(k) => {
                let id = k.curve.identifier();
                w.write_string(id.as_slice());
                w.write_bytes(k.key.as_slice());
                assert(w.bytes() =~= h + fields_encoding(self.kind@));
            },
            PublicKeyKind::Ed25519(k) => {
                w.write_bytes(k.key.as_slice());
                assert(w.bytes() =~= h + fields_encoding(self.kind@));
            },
        }
        let r = w.into_bytes();
        r
    }
}

} // verus!
