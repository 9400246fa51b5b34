use vstd::prelude::*;

verus! {

/// The algorithm families of public keys.
#[derive(Debug, Clone, Copy, PartialEq, Eq, Structural)]
pub enum KeyFamily {
    Rsa,
    Dsa,
    Ecdsa,
    Ed25519,
}

/// The key algorithms, each with its bare (non-certificate) wire name.
#[derive(Debug, Clone, Copy, PartialEq, Eq, Structural)]
pub enum Algorithm {
    Rsa,
    Dsa,
    EcdsaP256,
    EcdsaP384,
    EcdsaP521,
    Ed25519,
}

/// A recognized key type: an algorithm, bare or as a certificate.
#[derive(Debug, Clone, Copy, PartialEq, Eq, Structural)]
pub struct KeyType {
    pub algorithm: Algorithm,
    pub is_certificate: bool,
}

/// The family of an algorithm.
pub open spec fn family_of(a: Algorithm) -> KeyFamily {
    match a {
        Algorithm::Rsa => KeyFamily::Rsa,
        Algorithm::Dsa => KeyFamily::Dsa,
        Algorithm::EcdsaP256 | Algorithm::EcdsaP384 | Algorithm::EcdsaP521 => KeyFamily::Ecdsa,
        Algorithm::Ed25519 => KeyFamily::Ed25519,
    }
}

/// The bare wire name of an algorithm.
pub open spec fn plain_name(a: Algorithm) -> Seq<u8> {
    match a {
        Algorithm::Rsa => seq![115, 115, 104, 45, 114, 115, 97],
        Algorithm::Dsa => seq![115, 115, 104, 45, 100, 115, 115],
        Algorithm::EcdsaP256 => seq![101, 99, 100, 115, 97, 45, 115, 104, 97, 50, 45, 110, 105, 115, 116, 112, 50, 53, 54],
        Algorithm::EcdsaP384 => seq![101, 99, 100, 115, 97, 45, 115, 104, 97, 50, 45, 110, 105, 115, 116, 112, 51, 56, 52],
        Algorithm::EcdsaP521 => seq![101, 99, 100, 115, 97, 45, 115, 104, 97, 50, 45, 110, 105, 115, 116, 112, 53, 50, 49],
        Algorithm::Ed25519 => seq![115, 115, 104, 45, 101, 100, 50, 53, 53, 49, 57],
    }
}

/// What a certificate's name adds to the bare name.
pub open spec fn cert_suffix() -> Seq<u8> {
    seq![45, 99, 101, 114, 116, 45, 118, 48, 49, 64, 111, 112, 101, 110, 115, 115, 104, 46, 99, 111, 109]
}

/// The wire name of a key type.
pub open spec fn wire_name(kt: KeyType) -> Seq<u8> {
    if kt.is_certificate {
        plain_name(kt.algorithm) + cert_suffix()
    } else {
        plain_name(kt.algorithm)
    }
}

/// The short label of a family.
pub open spec fn family_label(f: KeyFamily) -> Seq<u8> {
    match f {
        KeyFamily::Rsa => seq![82, 83, 65],
        KeyFamily::Dsa => seq![68, 83, 65],
        KeyFamily::Ecdsa => seq![69, 67, 68, 83, 65],
        KeyFamily::Ed25519 => seq![69, 68, 50, 53, 53, 49, 57],
    }
}

/// The key type that a wire name stands for, if any.
pub open spec fn key_type_named(n: Seq<u8>) -> Option<KeyType> {
    if n == wire_name(KeyType { algorithm: Algorithm::Rsa, is_certificate: false }) {
        Some(KeyType { algorithm: Algorithm::Rsa, is_certificate: false })
    } else if n == wire_name(KeyType { algorithm: Algorithm::Rsa, is_certificate: true }) {
        Some(KeyType { algorithm: Algorithm::Rsa, is_certificate: true })
    } else if n == wire_name(KeyType { algorithm: Algorithm::Dsa, is_certificate: false }) {
        Some(KeyType { algorithm: Algorithm::Dsa, is_certificate: false })
    } else if n == wire_name(KeyType { algorithm: Algorithm::Dsa, is_certificate: true }) {
        Some(KeyType { algorithm: Algorithm::Dsa, is_certificate: true })
    } else if n == wire_name(KeyType { algorithm: Algorithm::EcdsaP256, is_certificate: false }) {
        Some(KeyType { algorithm: Algorithm::EcdsaP256, is_certificate: false })
    } else if n == wire_name(KeyType { algorithm: Algorithm::EcdsaP256, is_certificate: true }) {
        Some(KeyType { algorithm: Algorithm::EcdsaP256, is_certificate: true })
    } else if n == wire_name(KeyType { algorithm: Algorithm::EcdsaP384, is_certificate: false }) {
        Some(KeyType { algorithm: Algorithm::EcdsaP384, is_certificate: false })
    } else if n == wire_name(KeyType { algorithm: Algorithm::EcdsaP384, is_certificate: true }) {
        Some(KeyType { algorithm: Algorithm::EcdsaP384, is_certificate: true })
    } else if n == wire_name(KeyType { algorithm: Algorithm::EcdsaP521, is_certificate: false }) {
        Some(KeyType { algorithm: Algorithm::EcdsaP521, is_certificate: false })
    } else if n == wire_name(KeyType { algorithm: Algorithm::EcdsaP521, is_certificate: true }) {
        Some(KeyType { algorithm: Algorithm::EcdsaP521, is_certificate: true })
    } else if n == wire_name(KeyType { algorithm: Algorithm::Ed25519, is_certificate: false }) {
        Some(KeyType { algorithm: Algorithm::Ed25519, is_certificate: false })
    } else if n == wire_name(KeyType { algorithm: Algorithm::Ed25519, is_certificate: true }) {
        Some(KeyType { algorithm: Algorithm::Ed25519, is_certificate: true })
    } else {
        None
    }
}

/// Whether two byte sequences are equal.
pub fn bytes_eq(a: &[u8], b: &[u8]) -> (r: bool)
    ensures
        r == (a@ == b@),
{
    if a.len() != b.len() {
        return false;
    }
    let mut i: usize = 0;
    while i < a.len()
        invariant
            a@.len() == b@.len(),
            i <= a@.len(),
            forall|j: int| 0 <= j < i ==> a@[j] == b@[j],
        decreases a@.len() - i,
    {
        if a[i] != b[i] {
            return false;
        }
        i = i + 1;
    }
    assert(a@ =~= b@);
    true
}

impl Algorithm {
    /// The family of this algorithm.
    pub fn family(&self) -> (r: KeyFamily)
        ensures
            r == family_of(*self),
    {
        match self {
            Algorithm::Rsa => KeyFamily::Rsa,
            Algorithm::Dsa => KeyFamily::Dsa,
            Algorithm::EcdsaP256 | Algorithm::EcdsaP384 | Algorithm::EcdsaP521 => KeyFamily::Ecdsa,
            Algorithm::Ed25519 => KeyFamily::Ed25519,
        }
    }

    /// The bare wire name of this algorithm.
    pub fn plain_name(&self) -> (r: Vec<u8>)
        ensures
            r@ == plain_name(*self),
    {
        let r = match self {
            Algorithm::Rsa => vec![115u8, 115u8, 104u8, 45u8, 114u8, 115u8, 97u8],
            Algorithm::Dsa => vec![115u8, 115u8, 104u8, 45u8, 100u8, 115u8, 115u8],
            Algorithm::EcdsaP256 => vec![101u8, 99u8, 100u8, 115u8, 97u8, 45u8, 115u8, 104u8, 97u8, 50u8, 45u8, 110u8, 105u8, 115u8, 116u8, 112u8, 50u8, 53u8, 54u8],
            Algorithm::EcdsaP384 => vec![101u8, 99u8, 100u8, 115u8, 97u8, 45u8, 115u8, 104u8, 97u8, 50u8, 45u8, 110u8, 105u8, 115u8, 116u8, 112u8, 51u8, 56u8, 52u8],
            Algorithm::EcdsaP521 => vec![101u8, 99u8, 100u8, 115u8, 97u8, 45u8, 115u8, 104u8, 97u8, 50u8, 45u8, 110u8, 105u8, 115u8, 116u8, 112u8, 53u8, 50u8, 49u8],
            Algorithm::Ed25519 => vec![115u8, 115u8, 104u8, 45u8, 101u8, 100u8, 50u8, 53u8, 53u8, 49u8, 57u8],
        };
        assert(r@ =~= plain_name(*self));
        r
    }
}

fn cert_suffix_bytes() -> (r: Vec<u8>)
    ensures
        r@ == cert_suffix(),
{
    let r = vec![45u8, 99u8, 101u8, 114u8, 116u8, 45u8, 118u8, 48u8, 49u8, 64u8, 111u8, 112u8, 101u8, 110u8, 115u8, 115u8, 104u8, 46u8, 99u8, 111u8, 109u8];
    assert(r@ =~= cert_suffix());
    r
}

impl KeyType {
    /// The family of this key type.
    pub fn family(&self) -> (r: KeyFamily)
        ensures
            r == family_of(self.algorithm),
    {
        self.algorithm.family()
    }

    /// The name written when a key of this type is encoded: always the bare one.
    pub fn plain(&self) -> (r: Vec<u8>)
        ensures
            r@ == plain_name(self.algorithm),
    {
        self.algorithm.plain_name()
    }

    /// The wire name of this key type.
    pub fn name(&self) -> (r: Vec<u8>)
        ensures
            r@ == wire_name(*self),
    {
        let mut r = self.algorithm.plain_name();
        if self.is_certificate {
            let s = cert_suffix_bytes();
            let mut i: usize = 0;
            let ghost p = r@;
            while i < s.len()
                invariant
                    i <= s@.len(),
                    r@ =~= p + s@.subrange(0, i as int),
                decreases s@.len() - i,
            {
                r.push(s[i]);
                i = i + 1;
            }
            assert(s@.subrange(0, s@.len() as int) =~= s@);
        }
        r
    }

    /// The short label of this key type's family.
    pub fn short_name(&self) -> (r: Vec<u8>)
        ensures
            r@ == family_label(family_of(self.algorithm)),
    {
        let r = match self.algorithm.family() {
            KeyFamily::Rsa => vec![82u8, 83u8, 65u8],
            KeyFamily::Dsa => vec![68u8, 83u8, 65u8],
            KeyFamily::Ecdsa => vec![69u8, 67u8, 68u8, 83u8, 65u8],
            KeyFamily::Ed25519 => vec![69u8, 68u8, 50u8, 53u8, 53u8, 49u8, 57u8],
        };
        assert(r@ =~= family_label(family_of(self.algorithm)));
        r
    }

    /// Looks up the key type with the given wire name.
    pub fn from_name(name: &[u8]) -> (r: Option<KeyType>)
        ensures
            r == key_type_named(name@),
    {
        let kt = KeyType { algorithm: Algorithm::Rsa, is_certificate: false };
        let n = kt.name();
        if bytes_eq(name, n.as_slice()) {
            return Some(kt);
        }
        let kt = KeyType { algorithm: Algorithm::Rsa, is_certificate: true };
        let n = kt.name();
        if bytes_eq(name, n.as_slice()) {
            return Some(kt);
        }
        let kt = KeyType { algorithm: Algorithm::Dsa, is_certificate: false };
        let n = kt.name();
        if bytes_eq(name, n.as_slice()) {
            return Some(kt);
        }
        let kt = KeyType { algorithm: Algorithm::Dsa, is_certificate: true };
        let n = kt.name();
        if bytes_eq(name, n.as_slice()) {
            return Some(kt);
        }
        let kt = KeyType { algorithm: Algorithm::EcdsaP256, is_certificate: false };
        let n = kt.name();
        if bytes_eq(name, n.as_slice()) {
            return Some(kt);
        }
        let kt = KeyType { algorithm: Algorithm::EcdsaP256, is_certificate: true };
        let n = kt.name();
        if bytes_eq(name, n.as_slice()) {
            return Some(kt);
        }
        let kt = KeyType { algorithm: Algorithm::EcdsaP384, is_certificate: false };
        let n = kt.name();
        if bytes_eq(name, n.as_slice()) {
            return Some(kt);
        }
        let kt = KeyType { algorithm: Algorithm::EcdsaP384, is_certificate: true };
        let n = kt.name();
        if bytes_eq(name, n.as_slice()) {
            return Some(kt);
        }
        let kt = KeyType { algorithm: Algorithm::EcdsaP521, is_certificate: false };
        let n = kt.name();
        if bytes_eq(name, n.as_slice()) {
            return Some(kt);
        }
        let kt = KeyType { algorithm: Algorithm::EcdsaP521, is_certificate: true };
        let n = kt.name();
        if bytes_eq(name, n.as_slice()) {
            return Some(kt);
        }
        let kt = KeyType { algorithm: Algorithm::Ed25519, is_certificate: false };
        let n = kt.name();
        if bytes_eq(name, n.as_slice()) {
            return Some(kt);
        }
        let kt = KeyType { algorithm: Algorithm::Ed25519, is_certificate: true };
        let n = kt.name();
        if bytes_eq(name, n.as_slice()) {
            return Some(kt);
        }
        None
    }
}

} // verus!
