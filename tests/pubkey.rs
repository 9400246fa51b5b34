use sshkeys::error::ErrorKind;
use sshkeys::fingerprint::{Fingerprint, FingerprintKind};
use sshkeys::keytype::{Algorithm, KeyFamily, KeyType};
use sshkeys::pubkey::{Curve, CurveKind, PublicKey, PublicKeyKind};
use sshkeys::wire::{Reader, Writer};

fn blob(b: &[u8]) -> Vec<u8> {
    let mut v = (b.len() as u32).to_be_bytes().to_vec();
    v.extend_from_slice(b);
    v
}

fn modulus() -> Vec<u8> {
    let mut n = vec![0x81u8];
    n.extend(0u8..255);
    n
}

fn rsa_body(name: &[u8]) -> Vec<u8> {
    let mut v = blob(name);
    v.extend(blob(&[1, 0, 1]));
    let mut padded = vec![0u8];
    padded.extend(modulus());
    v.extend(blob(&padded));
    v
}

fn ed25519_body() -> Vec<u8> {
    let mut v = blob(b"ssh-ed25519");
    v.extend(blob(&(0u8..32).collect::<Vec<u8>>()));
    v
}

fn rsa_fields(k: &PublicKey) -> (Vec<u8>, Vec<u8>) {
    match &k.kind {
        PublicKeyKind::Rsa(r) => (r.e.clone(), r.n.clone()),
        _ => panic!("not an RSA key"),
    }
}

#[test]
fn rsa_round_trip() {
    let body = rsa_body(b"ssh-rsa");
    let k = PublicKey::from_bytes(&body).unwrap();
    assert_eq!(k.key_type.family(), KeyFamily::Rsa);
    assert!(k.comment.is_none());
    let (e, n) = rsa_fields(&k);
    assert_eq!(e, vec![1, 0, 1]);
    assert_eq!(n, modulus());
    let enc = k.encode();
    assert_eq!(enc, body);
    let k2 = PublicKey::from_bytes(&enc).unwrap();
    assert_eq!(k2.kind, k.kind);
    assert_eq!(k2.key_type.family(), k.key_type.family());
}

#[test]
fn dsa_round_trip() {
    let mut body = blob(b"ssh-dss");
    for x in [[5u8], [6], [7], [8]] {
        body.extend(blob(&x));
    }
    let k = PublicKey::from_bytes(&body).unwrap();
    match &k.kind {
        PublicKeyKind::Dsa(d) => {
            assert_eq!((d.p.clone(), d.q.clone(), d.g.clone(), d.y.clone()), (vec![5], vec![6], vec![7], vec![8]));
        }
        _ => panic!("not a DSA key"),
    }
    assert_eq!(k.bits(), 8);
    assert_eq!(k.encode(), body);
}

#[test]
fn ecdsa_round_trip() {
    let mut body = blob(b"ecdsa-sha2-nistp384");
    body.extend(blob(b"nistp384"));
    body.extend(blob(&[4, 1, 2, 3]));
    let k = PublicKey::from_bytes(&body).unwrap();
    match &k.kind {
        PublicKeyKind::Ecdsa(c) => {
            assert_eq!(c.curve.kind, CurveKind::Nistp384);
            assert_eq!(c.key, vec![4, 1, 2, 3]);
        }
        _ => panic!("not an ECDSA key"),
    }
    assert_eq!(k.bits(), 384);
    assert_eq!(k.encode(), body);
}

#[test]
fn ecdsa_unknown_curve() {
    let mut body = blob(b"ecdsa-sha2-nistp256");
    body.extend(blob(b"nistp999"));
    body.extend(blob(&[4]));
    let err = PublicKey::from_bytes(&body).unwrap_err();
    assert!(matches!(err.kind, ErrorKind::UnknownCurve(ref s) if s == "nistp999"));
}

#[test]
fn mpint_sign_padding() {
    let mut w = Writer::new();
    w.write_mpint(&[0x80, 1]);
    w.write_mpint(&[0x7f, 1]);
    w.write_mpint(&[]);
    let bytes = w.into_bytes();
    assert_eq!(bytes, vec![0, 0, 0, 3, 0, 0x80, 1, 0, 0, 0, 2, 0x7f, 1, 0, 0, 0, 0]);
    let mut r = Reader::new(&bytes);
    assert_eq!(r.read_mpint().unwrap(), vec![0x80, 1]);
    assert_eq!(r.read_mpint().unwrap(), vec![0x7f, 1]);
    assert_eq!(r.read_mpint().unwrap(), Vec::<u8>::new());
}

#[test]
fn reader_primitives() {
    let data = [0u8, 0, 1, 2, 0, 0, 0, 2, b'h', b'i'];
    let mut r = Reader::new(&data);
    assert_eq!(r.read_u32().unwrap(), 258);
    assert_eq!(r.read_string().unwrap(), b"hi".to_vec());
    assert!(matches!(r.read_u32().unwrap_err().kind, ErrorKind::Truncated));
}

#[test]
fn bits_of_rsa_and_ed25519() {
    let k = PublicKey::from_bytes(&rsa_body(b"ssh-rsa")).unwrap();
    assert_eq!(k.bits(), 2048);
    let e = PublicKey::from_bytes(&ed25519_body()).unwrap();
    assert_eq!(e.bits(), 256);
    assert_eq!(e.encode(), ed25519_body());
}

#[test]
fn fingerprint_is_stable() {
    let k = PublicKey::from_bytes(&rsa_body(b"ssh-rsa")).unwrap();
    let a = k.fingerprint();
    let b = k.fingerprint();
    assert_eq!(a.kind, FingerprintKind::Sha256);
    assert_eq!(a.hash, b.hash);
    assert_eq!(a.hash, "UBF3JZxyke48P8OSIPafOlX2WSE4zrjnh7BOIg9grdU");
    assert!(!a.hash.ends_with('='));
    let text = format!("{}:{}", String::from_utf8(a.kind.label()).unwrap(), a.hash);
    assert_eq!(text, "SHA256:UBF3JZxyke48P8OSIPafOlX2WSE4zrjnh7BOIg9grdU");
}

#[test]
fn fingerprint_other_digests() {
    let k = PublicKey::from_bytes(&rsa_body(b"ssh-rsa")).unwrap();
    let f384 = k.fingerprint_with(FingerprintKind::Sha384);
    assert_eq!(f384.hash, "RYDQ4v/ENXJQrgNqJMuJ3tBrpwHuibfMn6b0tIfbczqZ6qoTh6KyU+xYaQx3tIMK");
    let f512 = k.fingerprint_with(FingerprintKind::Sha512);
    assert_eq!(
        f512.hash,
        "31cQlfD69D9yiis+AWhbIIwhYsj7OdH9v+P0haHSk6EUS226g+IRorvKYlJLz0LwpvYtyz5A/axeSXS46f06TA"
    );
    assert_eq!(String::from_utf8(FingerprintKind::Sha512.label()).unwrap(), "SHA512");
    let e = Fingerprint::compute(FingerprintKind::Sha256, &ed25519_body());
    assert_eq!(e.hash, "ZkAslGjFiUHdGf/WUL8rQvkib4PTvQatUV0OUQSncCA");
}

#[test]
fn from_string_with_comment() {
    let text = "ssh-ed25519 AAAAC3NzaC1lZDI1NTE5AAAAIAABAgMEBQYHCAkKCwwNDg8QERITFBUWFxgZGhscHR4f user@host";
    let k = PublicKey::from_string(text).unwrap();
    assert_eq!(k.comment.as_deref(), Some("user@host"));
    assert_eq!(k.key_type, KeyType { algorithm: Algorithm::Ed25519, is_certificate: false });
    assert_eq!(k.encode(), ed25519_body());
    let bare = PublicKey::from_string("ssh-ed25519 AAAAC3NzaC1lZDI1NTE5AAAAIAABAgMEBQYHCAkKCwwNDg8QERITFBUWFxgZGhscHR4f").unwrap();
    assert!(bare.comment.is_none());
}

#[test]
fn type_mismatch_is_detected() {
    let text = "ssh-rsa AAAAB3NzaC1kc3MAAAABBQAAAAEFAAAAAQUAAAABBQ==";
    let err = PublicKey::from_string(text).unwrap_err();
    assert!(matches!(err.kind, ErrorKind::KeyTypeMismatch));
    let ok = PublicKey::from_string("ssh-dss AAAAB3NzaC1kc3MAAAABBQAAAAEFAAAAAQUAAAABBQ==").unwrap();
    assert_eq!(ok.key_type.family(), KeyFamily::Dsa);
}

#[test]
fn unknown_type_is_reported() {
    let err = PublicKey::from_string("ssh-bogus AAAA").unwrap_err();
    assert!(matches!(err.kind, ErrorKind::UnknownKeyType(ref s) if s == "ssh-bogus"));
    let mut body = blob(b"ssh-bogus");
    body.extend(blob(&[1]));
    let err = PublicKey::from_bytes(&body).unwrap_err();
    assert!(matches!(err.kind, ErrorKind::UnknownKeyType(ref s) if s == "ssh-bogus"));
}

#[test]
fn text_format_errors() {
    let err = PublicKey::from_string("ssh-rsa").unwrap_err();
    assert!(matches!(err.kind, ErrorKind::InvalidFormat));
    let err = PublicKey::from_string("").unwrap_err();
    assert!(matches!(err.kind, ErrorKind::InvalidFormat));
    let err = PublicKey::from_string("ssh-rsa !!!notbase64").unwrap_err();
    assert!(matches!(err.kind, ErrorKind::Base64Error));
}

#[test]
fn truncated_input_is_rejected() {
    let mut body = rsa_body(b"ssh-rsa");
    body.truncate(body.len() - 10);
    let err = PublicKey::from_bytes(&body).unwrap_err();
    assert!(matches!(err.kind, ErrorKind::Truncated));
    let err = PublicKey::from_bytes(&[0, 0, 0]).unwrap_err();
    assert!(matches!(err.kind, ErrorKind::Truncated));
    let err = PublicKey::from_bytes(&[0, 0, 0, 9, b's']).unwrap_err();
    assert!(matches!(err.kind, ErrorKind::InvalidFormat));
    let mut ed = ed25519_body();
    ed.pop();
    let err = PublicKey::from_bytes(&ed).unwrap_err();
    assert!(matches!(err.kind, ErrorKind::Truncated));
}

#[test]
fn certificate_fields_match_plain() {
    let fields = &rsa_body(b"ssh-rsa")[11..];
    let mut r1 = Reader::new(fields);
    let cert = PublicKey::from_reader(b"ssh-rsa-cert-v01@openssh.com", &mut r1).unwrap();
    let mut r2 = Reader::new(fields);
    let plain = PublicKey::from_reader(b"ssh-rsa", &mut r2).unwrap();
    assert_eq!(cert.kind, plain.kind);
    assert!(cert.key_type.is_certificate);
    assert_eq!(cert.key_type.name(), b"ssh-rsa-cert-v01@openssh.com".to_vec());
    assert_eq!(cert.encode(), rsa_body(b"ssh-rsa"));
    let whole = PublicKey::from_bytes(&rsa_body(b"ssh-rsa-cert-v01@openssh.com")).unwrap();
    assert_eq!(whole.kind, plain.kind);
    assert_eq!(whole.encode(), rsa_body(b"ssh-rsa"));
}

#[test]
fn curve_lookup() {
    assert_eq!(Curve::from_identifier("nistp256").unwrap().kind, CurveKind::Nistp256);
    assert_eq!(Curve::from_identifier("nistp521").unwrap().identifier(), b"nistp521".to_vec());
    let err = Curve::from_identifier("p256").unwrap_err();
    assert!(matches!(err.kind, ErrorKind::UnknownCurve(ref s) if s == "p256"));
}

#[test]
fn key_type_names() {
    let kt = KeyType::from_name(b"ecdsa-sha2-nistp521-cert-v01@openssh.com").unwrap();
    assert_eq!(kt, KeyType { algorithm: Algorithm::EcdsaP521, is_certificate: true });
    assert_eq!(kt.plain(), b"ecdsa-sha2-nistp521".to_vec());
    assert_eq!(kt.short_name(), b"ECDSA".to_vec());
    assert_eq!(KeyType::from_name(b"ssh-rsa2"), None);
}

#[test]
fn comment_keeps_every_word() {
    let text = "ssh-ed25519 AAAAC3NzaC1lZDI1NTE5AAAAIAABAgMEBQYHCAkKCwwNDg8QERITFBUWFxgZGhscHR4f my work laptop\n";
    let k = PublicKey::from_string(text).unwrap();
    assert_eq!(k.comment.as_deref(), Some("my work laptop"));
    assert!(k.is_encodable());
}
