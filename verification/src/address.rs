//! RecordAddress: deterministic digest-to-address derivation.
//!
//! An attestation record lives at an address computed from the digest alone:
//! the ledger's program-address derivation applied to a fixed seed tag and
//! the SHA-256 hash of the digest text. The derivation needs no external
//! state, so signer and verifier reach the same address from the same
//! digest, and distinct digests collide only with cryptographically
//! negligible probability.

use vstd::prelude::*;
use vstd::string::*;

use crate::errors::SkelzError;

verus! {

/// What SHA-256 returns on a byte sequence; fixed by the bytes alone.
pub uninterp spec fn sha256_of(data: Seq<u8>) -> Seq<u8>;

/// What the ledger's program-address derivation returns for a seed list and
/// a program id; fixed by both alone. Absent only in the statistically
/// negligible case that no viable address exists for the seeds.
pub uninterp spec fn program_address_of(seeds: Seq<Seq<u8>>, program_id: Seq<u8>) -> Option<
    Seq<u8>,
>;

/// What base58 public-key parsing returns on a text; fixed by the text
/// alone, and absent when the text is no well-formed key.
pub uninterp spec fn pubkey_bytes_of(s: Seq<char>) -> Option<Seq<u8>>;

/// Relies on sha2's `Sha256::digest`: a pure function of the input bytes
/// whose result is the 32-byte SHA-256 digest.
#[verifier::external_body]
fn sha256_bytes(data: &[u8]) -> (r: Vec<u8>)
    ensures
        r@ == sha256_of(data@),
        r@.len() == 32,
{
    <sha2::Sha256 as sha2::Digest>::digest(data).to_vec()
}

/// Relies on solana_sdk's `Pubkey::try_find_program_address`: a pure
/// function of the seeds and the program id, `None` only when no bump seed
/// yields a viable address; a returned address is 32 bytes.
#[verifier::external_body]
fn find_program_address_two(seed_a: &[u8], seed_b: &[u8], program_id: &Vec<u8>) -> (r: Option<
    Vec<u8>,
>)
    requires
        program_id@.len() == 32,
    ensures
        r is Some <==> program_address_of(seq![seed_a@, seed_b@], program_id@) is Some,
        r matches Some(v) ==> Some(v@) == program_address_of(seq![seed_a@, seed_b@], program_id@)
            && v@.len() == 32,
{
    let arr: [u8; 32] = program_id.as_slice().try_into().expect("a 32-byte program id");
    let pk = solana_sdk::pubkey::Pubkey::from(arr);
    solana_sdk::pubkey::Pubkey::try_find_program_address(&[seed_a, seed_b], &pk).map(
        |found: (solana_sdk::pubkey::Pubkey, u8)| found.0.to_bytes().to_vec(),
    )
}

/// Relies on solana_sdk's `Pubkey::from_str`: base58 parsing is a pure
/// function of the text, and a parsed key is exactly 32 bytes.
#[verifier::external_body]
pub(crate) fn parse_pubkey_base58(s: &str) -> (r: Option<Vec<u8>>)
    ensures
        r is Some <==> pubkey_bytes_of(s@) is Some,
        r matches Some(v) ==> Some(v@) == pubkey_bytes_of(s@) && v@.len() == 32,
{
    match <solana_sdk::pubkey::Pubkey as std::str::FromStr>::from_str(s) {
        Ok(p) => Some(p.to_bytes().to_vec()),
        Err(_) => None,
    }
}

/// The attestation program's id in its base58 form.
pub fn skelz_program_id_base58() -> (r: &'static str)
    ensures
        r@ == "4uw8DwTRdUMwGmbNrK5GZ5kgdVtco4aUaTGDnEUBrYKt"@,
{
    "4uw8DwTRdUMwGmbNrK5GZ5kgdVtco4aUaTGDnEUBrYKt"
}

/// The attestation program's id, decoded to its 32 address bytes.
pub open spec fn spec_program_id_bytes() -> Seq<u8> {
    seq![
        58u8,
        34,
        118,
        47,
        70,
        51,
        113,
        200,
        90,
        121,
        28,
        228,
        64,
        135,
        19,
        30,
        181,
        217,
        138,
        73,
        41,
        193,
        78,
        252,
        172,
        88,
        131,
        156,
        130,
        203,
        99,
        139,
    ]
}

/// The attestation program's id as address bytes, the decoded form of
/// [`skelz_program_id_base58`].
pub fn program_id_bytes() -> (r: Vec<u8>)
    ensures
        r@ == spec_program_id_bytes(),
        r@.len() == 32,
{
    let v: Vec<u8> = vec![
        58,
        34,
        118,
        47,
        70,
        51,
        113,
        200,
        90,
        121,
        28,
        228,
        64,
        135,
        19,
        30,
        181,
        217,
        138,
        73,
        41,
        193,
        78,
        252,
        172,
        88,
        131,
        156,
        130,
        203,
        99,
        139,
    ];
    proof {
        assert(v@ =~= spec_program_id_bytes());
    }
    v
}

/// The fixed seed tag of every record address: the ASCII bytes of
/// `signature`.
pub open spec fn spec_signature_seed_tag() -> Seq<u8> {
    seq![115u8, 105, 103, 110, 97, 116, 117, 114, 101]
}

/// The fixed seed tag of every record address, as a byte vector.
pub fn signature_seed_tag() -> (r: Vec<u8>)
    ensures
        r@ == spec_signature_seed_tag(),
{
    let v: Vec<u8> = vec![115, 105, 103, 110, 97, 116, 117, 114, 101];
    proof {
        assert(v@ =~= spec_signature_seed_tag());
    }
    v
}

/// The record address of a digest: the program derivation applied to the
/// fixed seed tag and the SHA-256 hash of the digest text's bytes.
pub open spec fn spec_record_address(digest: Seq<char>) -> Option<Seq<u8>> {
    program_address_of(
        seq![
            spec_signature_seed_tag(),
            sha256_of(vstd::utf8::encode_utf8(digest)),
        ],
        spec_program_id_bytes(),
    )
}

/// Derives the ledger address holding the attestation record of `digest`.
///
/// Reproducible from the digest alone. Fails only in the negligible case
/// that the derivation finds no viable address, reported as a transport
/// failure of the ledger convention.
pub fn derive_record_address(digest: &str) -> (r: Result<Vec<u8>, SkelzError>)
    ensures
        r is Ok <==> spec_record_address(digest@) is Some,
        r matches Ok(a) ==> Some(a@) == spec_record_address(digest@) && a@.len() == 32,
        r matches Err(e) ==> e is TransportError,
{
    let digest_hash = sha256_bytes(digest.as_bytes());
    let tag = signature_seed_tag();
    let pid = program_id_bytes();
    let found = find_program_address_two(tag.as_slice(), digest_hash.as_slice(), &pid);
    proof {
        assert(seq![tag@, digest_hash@] =~~= seq![
            spec_signature_seed_tag(),
            sha256_of(vstd::utf8::encode_utf8(digest@)),
        ]);
    }
    match found {
        Some(addr) => Ok(addr),
        None => Err(
            SkelzError::TransportError(
                String::from_str("the ledger's address derivation found no viable address"),
            ),
        ),
    }
}

} // verus!
