use vstd::prelude::*;
use vstd::string::StringSliceAdditionalSpecFns;

verus! {

/// What SHA-256 returns on the given octets. The digest itself is the
/// outside crate's to compute; this library states only its length.
pub uninterp spec fn sha256_of(data: Seq<u8>) -> Seq<u8>;

/// Relies on sha2::Sha256 through digest::Digest::digest: one 32-octet
/// digest, a function of the input octets alone.
#[verifier::external_body]
fn sha256(data: &[u8]) -> (r: Vec<u8>)
    ensures
        r@ == sha256_of(data@),
        r@.len() == 32,
{
    let digest = <sha2::Sha256 as sha2::digest::Digest>::digest(data);
    digest.as_slice().to_vec()
}

/// SHA-256 folded over itself `n` times, starting from `h`.
pub open spec fn spec_iter_sha256(n: nat, h: Seq<u8>) -> Seq<u8>
    decreases n,
{
    if n == 0 {
        h
    } else {
        sha256_of(spec_iter_sha256((n - 1) as nat, h))
    }
}

/// The salt appended to a passphrase before it is hashed into a network
/// membership key.
pub open spec fn spec_nmk_salt() -> Seq<u8> {
    seq![0x08u8, 0x85, 0x6d, 0xaf, 0x7c, 0xf5, 0x81, 0x86]
}

/// The network membership key a passphrase derives: SHA-256 of the
/// passphrase octets and the salt, 999 further SHA-256 rounds, and the
/// first 16 octets of the result.
pub open spec fn spec_nmk(passphrase: Seq<u8>) -> Seq<u8> {
    spec_iter_sha256(999, sha256_of(passphrase + spec_nmk_salt())).subrange(0, 16)
}

/// Derives the 16-octet network membership key of a UTF-8 passphrase.
pub fn generate_nmk(s: &str) -> (r: [u8; 16])
    ensures
        r@ =~= spec_nmk(s.spec_bytes()),
{
    let magic: [u8; 8] = [0x08, 0x85, 0x6d, 0xaf, 0x7c, 0xf5, 0x81, 0x86];
    let mut input: Vec<u8> = vstd::slice::slice_to_vec(s.as_bytes());
    input.extend_from_slice(magic.as_slice());
    proof {
        assert(input@ =~= s.spec_bytes() + spec_nmk_salt());
    }
    let ghost base = sha256_of(input@);
    let mut hash = sha256(input.as_slice());
    let mut round: usize = 0;
    while round < 999
        invariant
            round <= 999,
            hash@ == spec_iter_sha256(round as nat, base),
            hash@.len() == 32,
        decreases 999 - round,
    {
        hash = sha256(hash.as_slice());
        round = round + 1;
    }
    let r: [u8; 16] = [
        hash[0],
        hash[1],
        hash[2],
        hash[3],
        hash[4],
        hash[5],
        hash[6],
        hash[7],
        hash[8],
        hash[9],
        hash[10],
        hash[11],
        hash[12],
        hash[13],
        hash[14],
        hash[15],
    ];
    proof {
        assert(r@ =~= spec_iter_sha256(999, base).subrange(0, 16));
    }
    r
}

/// The two-bit security level written into the top nibble of a network
/// identifier's last octet.
#[derive(PartialEq, Eq, Structural, Copy, Clone, Debug, Hash)]
pub struct SecurityLevel(pub u8);

impl Default for SecurityLevel {
    fn default() -> (r: SecurityLevel)
        ensures
            r.0 == 0,
    {
        SecurityLevel(0)
    }
}

impl SecurityLevel {
    pub fn simple() -> (r: SecurityLevel)
        ensures
            r.0 == 0x00,
    {
        SecurityLevel(0x00)
    }

    pub fn secure() -> (r: SecurityLevel)
        ensures
            r.0 == 0x01,
    {
        SecurityLevel(0x01)
    }

    /// True of the levels that `name` knows.
    pub open spec fn spec_is_named(self) -> bool {
        self.0 == 0x00 || self.0 == 0x01
    }

    /// The name of a recognised level.
    pub open spec fn spec_name_chars(self) -> Seq<char> {
        if self.0 == 0x00 {
            "SIMPLE"@
        } else {
            "SECURE"@
        }
    }

    pub fn name(&self) -> (r: Option<&'static str>)
        ensures
            r is Some <==> self.spec_is_named(),
            r matches Some(s) ==> s@ == self.spec_name_chars(),
    {
        if self.0 == 0x00 {
            Some("SIMPLE")
        } else if self.0 == 0x01 {
            Some("SECURE")
        } else {
            None
        }
    }
}

/// The network identifier a membership key derives: SHA-256 of the key,
/// 4 further SHA-256 rounds, the first 7 octets, and the security level
/// written over the top nibble of the last octet.
pub open spec fn spec_nid(nmk: Seq<u8>, security: u8) -> Seq<u8> {
    let h = spec_iter_sha256(4, sha256_of(nmk));
    h.subrange(0, 7).update(6, (h[6] >> 4) | ((security << 4) as u8))
}

/// Derives the 7-octet network identifier of a 16-octet network
/// membership key at the given security level.
pub fn generate_nid(nmk: [u8; 16], security: SecurityLevel) -> (r: [u8; 7])
    ensures
        r@ =~= spec_nid(nmk@, security.0),
{
    let ghost base = sha256_of(nmk@);
    let mut hash = sha256(nmk.as_slice());
    let mut round: usize = 0;
    while round < 4
        invariant
            round <= 4,
            hash@ == spec_iter_sha256(round as nat, base),
            hash@.len() == 32,
        decreases 4 - round,
    {
        hash = sha256(hash.as_slice());
        round = round + 1;
    }
    let last: u8 = (hash[6] >> 4) | (security.0 << 4);
    let r: [u8; 7] = [hash[0], hash[1], hash[2], hash[3], hash[4], hash[5], last];
    proof {
        assert(r@ =~= spec_nid(nmk@, security.0));
    }
    r
}

/// The network membership key of the well-known passphrase
/// "HomePlugAV".
pub fn nmk_homeplug_av() -> (r: [u8; 16])
    ensures
        r@ =~= seq![
            0x50u8,
            0xd3,
            0xe4,
            0x93,
            0x3f,
            0x85,
            0x5b,
            0x70,
            0x40,
            0x78,
            0x4d,
            0xf8,
            0x15,
            0xaa,
            0x8d,
            0xb7,
        ],
{
    [
        0x50,
        0xd3,
        0xe4,
        0x93,
        0x3f,
        0x85,
        0x5b,
        0x70,
        0x40,
        0x78,
        0x4d,
        0xf8,
        0x15,
        0xaa,
        0x8d,
        0xb7,
    ]
}

/// The network membership key of the well-known passphrase
/// "HomePlugAV0123".
pub fn nmk_homeplug_av0123() -> (r: [u8; 16])
    ensures
        r@ =~= seq![
            0xb5u8,
            0x93,
            0x19,
            0xd7,
            0xe8,
            0x15,
            0x7b,
            0xa0,
            0x01,
            0xb0,
            0x18,
            0x66,
            0x9c,
            0xce,
            0xe3,
            0x0d,
        ],
{
    [
        0xb5,
        0x93,
        0x19,
        0xd7,
        0xe8,
        0x15,
        0x7b,
        0xa0,
        0x01,
        0xb0,
        0x18,
        0x66,
        0x9c,
        0xce,
        0xe3,
        0x0d,
    ]
}

} // verus!
