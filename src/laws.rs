use vstd::prelude::*;
use crate::error::Failure;
use crate::fingerprint::{first_pad, strip_pad};
use crate::keytype::{cert_suffix, key_type_named, plain_name, wire_name, Algorithm, KeyType};
use crate::pubkey::{fields_encoding, model_family, body_decode, curve_identifier, curve_named, encoding, fields_at, fits_wire, key_bits, named_key_at, CurveKind, KeyModel};
use crate::keytype::{family_of, KeyFamily};
use crate::wire::{blob, blob_at, has_sign_pad, lemma_blob_at, lemma_blob_within, lemma_magnitude_unpadded, lemma_mpint_at, lemma_mpint_round_trip, mpint_at, mpint_magnitude, mpint_payload};

verus! {

/// The bare name of an algorithm is looked up as that algorithm, bare.
pub proof fn lemma_plain_name_named(a: Algorithm)
    ensures
        key_type_named(plain_name(a)) == Some(KeyType { algorithm: a, is_certificate: false }),
{
    let p256 = plain_name(Algorithm::EcdsaP256);
    let p384 = plain_name(Algorithm::EcdsaP384);
    let p521 = plain_name(Algorithm::EcdsaP521);
    assert(plain_name(Algorithm::Dsa)[4] != plain_name(Algorithm::Rsa)[4]);
    assert(p384[17] != p256[17]);
    assert(p521[17] != p256[17]);
    assert(p521[17] != p384[17]);
}

/// The certificate name of an algorithm is looked up as that algorithm's
/// certificate type.
pub proof fn lemma_cert_name_named(a: Algorithm)
    ensures
        key_type_named(wire_name(KeyType { algorithm: a, is_certificate: true })) == Some(
            KeyType { algorithm: a, is_certificate: true },
        ),
{
    let sfx = cert_suffix();
    let c = |b: Algorithm| plain_name(b) + sfx;
    assert(c(Algorithm::Dsa)[4] == plain_name(Algorithm::Dsa)[4]);
    assert(c(Algorithm::Rsa)[4] == plain_name(Algorithm::Rsa)[4]);
    assert(c(Algorithm::EcdsaP256)[17] == plain_name(Algorithm::EcdsaP256)[17]);
    assert(c(Algorithm::EcdsaP384)[17] == plain_name(Algorithm::EcdsaP384)[17]);
    assert(c(Algorithm::EcdsaP521)[17] == plain_name(Algorithm::EcdsaP521)[17]);
    lemma_plain_name_named(a);
}

/// Certificate equivalence: the fields read for a certificate type name are
/// those read from the same bytes for the bare name of its algorithm.
pub proof fn lemma_certificate_fields(a: Algorithm, s: Seq<u8>, p: int)
    ensures
        match fields_at(family_of(a), s, p) {
            Ok(m) => named_key_at(wire_name(KeyType { algorithm: a, is_certificate: true }), s, p)
                == Ok::<(KeyType, KeyModel), Failure>((KeyType { algorithm: a, is_certificate: true }, m))
                && named_key_at(plain_name(a), s, p) == Ok::<(KeyType, KeyModel), Failure>(
                (KeyType { algorithm: a, is_certificate: false }, m),
            ),
            Err(x) => named_key_at(wire_name(KeyType { algorithm: a, is_certificate: true }), s, p)
                == Err::<(KeyType, KeyModel), Failure>(x) && named_key_at(plain_name(a), s, p)
                == Err::<(KeyType, KeyModel), Failure>(x),
        },
{
    lemma_cert_name_named(a);
    lemma_plain_name_named(a);
}

/// A curve's identifier is looked up as that curve.
pub proof fn lemma_curve_named(c: CurveKind)
    ensures
        curve_named(curve_identifier(c)) == Some(c),
{
    match c {
        CurveKind::Nistp256 => {},
        CurveKind::Nistp384 => {
            assert(curve_identifier(CurveKind::Nistp384)[6] != curve_identifier(CurveKind::Nistp256)[6]);
        },
        CurveKind::Nistp521 => {
            assert(curve_identifier(CurveKind::Nistp521)[6] != curve_identifier(CurveKind::Nistp256)[6]);
            assert(curve_identifier(CurveKind::Nistp521)[6] != curve_identifier(CurveKind::Nistp384)[6]);
        },
    }
}

/// Key material decoded from an input shorter than 2^32 bytes fits the wire,
/// and none of its mpint fields begins with a sign pad.
pub proof fn lemma_decoded_fits(f: KeyFamily, s: Seq<u8>, p: int)
    requires
        0 <= p,
        s.len() < u32::MAX,
        fields_at(f, s, p) is Ok,
    ensures
        fits_wire(fields_at(f, s, p)->Ok_0),
        unpadded(fields_at(f, s, p)->Ok_0),
{
    let sh = Failure::Truncated;
    match f {
        KeyFamily::Rsa => {
            lemma_blob_within(s, p, sh);
            let (b0, at1) = blob_at(s, p, sh)->Ok_0;
            lemma_magnitude_unpadded(b0);
            lemma_blob_within(s, at1, sh);
            lemma_magnitude_unpadded(blob_at(s, at1, sh)->Ok_0.0);
        },
        KeyFamily::Dsa => {
            lemma_blob_within(s, p, sh);
            let (b0, at1) = blob_at(s, p, sh)->Ok_0;
            lemma_magnitude_unpadded(b0);
            lemma_blob_within(s, at1, sh);
            let (b1, at2) = blob_at(s, at1, sh)->Ok_0;
            lemma_magnitude_unpadded(b1);
            lemma_blob_within(s, at2, sh);
            let (b2, at3) = blob_at(s, at2, sh)->Ok_0;
            lemma_magnitude_unpadded(b2);
            lemma_blob_within(s, at3, sh);
            lemma_magnitude_unpadded(blob_at(s, at3, sh)->Ok_0.0);
        },
        KeyFamily::Ecdsa => {
            lemma_blob_within(s, p, Failure::InvalidFormat);
            let at1 = blob_at(s, p, Failure::InvalidFormat)->Ok_0.1;
            lemma_blob_within(s, at1, sh);
        },
        KeyFamily::Ed25519 => {
            lemma_blob_within(s, p, sh);
        },
    }
}

/// None of the mpint fields of the key material begins with a sign pad.
pub open spec fn unpadded(m: KeyModel) -> bool {
    match m {
        KeyModel::Rsa { e, n } => !has_sign_pad(e) && !has_sign_pad(n),
        KeyModel::Dsa { p, q, g, y } => !has_sign_pad(p) && !has_sign_pad(q) && !has_sign_pad(g)
            && !has_sign_pad(y),
        _ => true,
    }
}

proof fn lemma_rsa_fields(x: Seq<u8>, e: Seq<u8>, n: Seq<u8>)
    requires
        e.len() < u32::MAX,
        n.len() < u32::MAX,
        !has_sign_pad(e),
        !has_sign_pad(n),
    ensures
        fields_at(KeyFamily::Rsa, x + fields_encoding(KeyModel::Rsa { e, n }), x.len() as int)
            == Ok::<KeyModel, Failure>(KeyModel::Rsa { e, n }),
{
    let z = Seq::<u8>::empty();
    let b1 = blob(mpint_payload(e));
    let b2 = blob(mpint_payload(n));
    let s = x + fields_encoding(KeyModel::Rsa { e, n });
    assert(s =~= x + b1 + b2);
    assert(s =~= (x + b1) + b2 + z);
    lemma_mpint_at(x, e, b2);
    lemma_mpint_at(x + b1, n, z);
}

proof fn lemma_dsa_fields(x: Seq<u8>, p: Seq<u8>, q: Seq<u8>, g: Seq<u8>, y: Seq<u8>)
    requires
        p.len() < u32::MAX,
        q.len() < u32::MAX,
        g.len() < u32::MAX,
        y.len() < u32::MAX,
        !has_sign_pad(p),
        !has_sign_pad(q),
        !has_sign_pad(g),
        !has_sign_pad(y),
    ensures
        fields_at(KeyFamily::Dsa, x + fields_encoding(KeyModel::Dsa { p, q, g, y }), x.len() as int)
            == Ok::<KeyModel, Failure>(KeyModel::Dsa { p, q, g, y }),
{
    let z = Seq::<u8>::empty();
    let b1 = blob(mpint_payload(p));
    let b2 = blob(mpint_payload(q));
    let b3 = blob(mpint_payload(g));
    let b4 = blob(mpint_payload(y));
    let s = x + fields_encoding(KeyModel::Dsa { p, q, g, y });
    assert(s =~= x + b1 + (b2 + b3 + b4));
    assert(s =~= (x + b1) + b2 + (b3 + b4));
    assert(s =~= (x + b1 + b2) + b3 + b4);
    assert(s =~= (x + b1 + b2 + b3) + b4 + z);
    lemma_mpint_at(x, p, b2 + b3 + b4);
    lemma_mpint_at(x + b1, q, b3 + b4);
    lemma_mpint_at(x + b1 + b2, g, b4);
    lemma_mpint_at(x + b1 + b2 + b3, y, z);
}

proof fn lemma_ecdsa_fields(x: Seq<u8>, curve: CurveKind, key: Seq<u8>)
    requires
        key.len() <= u32::MAX,
    ensures
        fields_at(KeyFamily::Ecdsa, x + fields_encoding(KeyModel::Ecdsa { curve, key }), x.len() as int)
            == Ok::<KeyModel, Failure>(KeyModel::Ecdsa { curve, key }),
{
    let z = Seq::<u8>::empty();
    let b1 = blob(curve_identifier(curve));
    let b2 = blob(key);
    let s = x + fields_encoding(KeyModel::Ecdsa { curve, key });
    lemma_curve_named(curve);
    assert(curve_identifier(curve).len() == 8);
    assert(s =~= x + b1 + b2);
    assert(s =~= (x + b1) + b2 + z);
    lemma_blob_at(x, curve_identifier(curve), b2, Failure::InvalidFormat);
    lemma_blob_at(x + b1, key, z, Failure::Truncated);
}

proof fn lemma_ed25519_fields(x: Seq<u8>, key: Seq<u8>)
    requires
        key.len() <= u32::MAX,
    ensures
        fields_at(KeyFamily::Ed25519, x + fields_encoding(KeyModel::Ed25519 { key }), x.len() as int)
            == Ok::<KeyModel, Failure>(KeyModel::Ed25519 { key }),
{
    let z = Seq::<u8>::empty();
    assert(x + fields_encoding(KeyModel::Ed25519 { key }) =~= x + blob(key) + z);
    lemma_blob_at(x, key, z, Failure::Truncated);
}

/// The fields of key material, read back from where they were written, give
/// the material.
pub proof fn lemma_fields_decode(x: Seq<u8>, m: KeyModel)
    requires
        fits_wire(m),
        unpadded(m),
    ensures
        fields_at(model_family(m), x + fields_encoding(m), x.len() as int) == Ok::<KeyModel, Failure>(m),
{
    match m {
        KeyModel::Rsa { e, n } => lemma_rsa_fields(x, e, n),
        KeyModel::Dsa { p, q, g, y } => lemma_dsa_fields(x, p, q, g, y),
        KeyModel::Ecdsa { curve, key } => lemma_ecdsa_fields(x, curve, key),
        KeyModel::Ed25519 { key } => lemma_ed25519_fields(x, key),
    }
}

/// Round trip: key material that fits the wire and carries no sign pads of
/// its own decodes from its encoding as itself, under the bare type name.
pub proof fn lemma_encoding_decodes(a: Algorithm, m: KeyModel)
    requires
        fits_wire(m),
        unpadded(m),
        family_of(a) == model_family(m),
    ensures
        body_decode(encoding(a, m)) == Ok::<(KeyType, KeyModel), Failure>(
            (KeyType { algorithm: a, is_certificate: false }, m),
        ),
{
    let e = encoding(a, m);
    let z = Seq::<u8>::empty();
    let f = fields_encoding(m);
    lemma_plain_name_named(a);
    assert(plain_name(a).len() < 100);
    assert(e =~= z + blob(plain_name(a)) + f);
    lemma_blob_at(z, plain_name(a), f, Failure::InvalidFormat);
    lemma_fields_decode(blob(plain_name(a)), m);
}

/// Round trip: a wire body shorter than 2^32 bytes that decodes to a key
/// decodes, once re-encoded, to the same key material and family, under the
/// bare type name.
pub proof fn lemma_round_trip(b: Seq<u8>)
    requires
        b.len() < u32::MAX,
        body_decode(b) is Ok,
    ensures
        fits_wire(body_decode(b)->Ok_0.1),
        body_decode(encoding(body_decode(b)->Ok_0.0.algorithm, body_decode(b)->Ok_0.1)) == Ok::<
            (KeyType, KeyModel),
            Failure,
        >(
            (
                KeyType { algorithm: body_decode(b)->Ok_0.0.algorithm, is_certificate: false },
                body_decode(b)->Ok_0.1,
            ),
        ),
{
    let (name, p) = blob_at(b, 0, Failure::InvalidFormat)->Ok_0;
    let kt = key_type_named(name)->Some_0;
    lemma_decoded_fits(family_of(kt.algorithm), b, p);
    let m = body_decode(b)->Ok_0.1;
    assert(family_of(kt.algorithm) == model_family(m));
    lemma_encoding_decodes(kt.algorithm, m);
}

/// mpint sign padding: a magnitude whose first byte has the high bit set is
/// written with exactly one zero byte in front, any other as it is, and
/// reading the mpint back removes exactly that byte.
pub proof fn lemma_mpint_padding(m: Seq<u8>)
    requires
        m.len() < u32::MAX,
        !has_sign_pad(m),
    ensures
        m.len() > 0 && m[0] >= 128 ==> mpint_payload(m) == seq![0u8] + m,
        !(m.len() > 0 && m[0] >= 128) ==> mpint_payload(m) == m,
        mpint_magnitude(mpint_payload(m)) == m,
        mpint_at(blob(mpint_payload(m)), 0) == Ok::<(Seq<u8>, int), Failure>(
            (m, 4 + mpint_payload(m).len() as int),
        ),
{
    reveal(mpint_payload);
    lemma_mpint_round_trip(m);
    let z = Seq::<u8>::empty();
    lemma_mpint_at(z, m, z);
    assert(z + blob(mpint_payload(m)) + z =~= blob(mpint_payload(m)));
}

/// Bits: an RSA key with a 256-byte modulus has 2048 bits; an Ed25519 key
/// has 256 whatever its content.
pub proof fn lemma_bits(m: KeyModel)
    ensures
        m is Rsa && m->Rsa_n.len() == 256 ==> key_bits(m) == 2048,
        m is Ed25519 ==> key_bits(m) == 256,
{
}

proof fn lemma_first_pad_bound(s: Seq<u8>)
    ensures
        0 <= first_pad(s) <= s.len(),
        forall|i: int| 0 <= i < first_pad(s) ==> s[i] != 61u8,
    decreases s.len(),
{
    if s.len() > 0 && s[0] != 61u8 {
        let t = s.drop_first();
        lemma_first_pad_bound(t);
        assert forall|i: int| 0 <= i < first_pad(s) implies s[i] != 61u8 by {
            if i > 0 {
                assert(s[i] == t[i - 1]);
            }
        }
    }
}

/// A fingerprint text cut at its padding holds no `=`.
pub proof fn lemma_strip_pad_unpadded(s: Seq<u8>)
    ensures
        forall|i: int| 0 <= i < strip_pad(s).len() ==> strip_pad(s)[i] != 61u8,
{
    lemma_first_pad_bound(s);
}

} // verus!
