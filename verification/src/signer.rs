//! SigningClient and the publisher's annotations: the sign path's
//! decisions.
//!
//! Signing binds a reference's digest to a signer: extract the digest,
//! derive the record address, create the write-once record there. The
//! ledger write itself and the registry upload are the caller's; this
//! module builds what they need — the write plan, and the annotations the
//! published evidence artifact must carry — and runs the same plan against
//! a record store.

use vstd::prelude::*;
use vstd::string::*;

use crate::address::{derive_record_address, spec_record_address};
use crate::artifact::{
    created_annotation_key, original_image_annotation_key, signature_annotation_key,
    spec_ann_lookup, tool_annotation_key,
};
use crate::digest::{extract_digest_from_reference, has_digest_marker, spec_extract_digest};
use crate::errors::SkelzError;
use crate::store::{spec_write, AttestationStore};

verus! {

/// Extracts the digest of a reference and derives its record address: what
/// a ledger write needs. Fails with `InvalidReference` when the reference
/// carries no digest, and as [`derive_record_address`] does when the
/// derivation finds no address.
pub fn prepare_attestation(image_reference: &str) -> (r: Result<(String, Vec<u8>), SkelzError>)
    ensures
        r is Ok <==> (has_digest_marker(image_reference@) && spec_record_address(
            spec_extract_digest(image_reference@).unwrap(),
        ) is Some),
        r matches Ok(p) ==> (Some(p.0@) == spec_extract_digest(image_reference@) && Some(p.1@)
            == spec_record_address(p.0@)),
        !has_digest_marker(image_reference@) ==> (r matches Err(e) && e is InvalidReference),
        (has_digest_marker(image_reference@) && spec_record_address(
            spec_extract_digest(image_reference@).unwrap(),
        ) is None) ==> (r matches Err(e) && e is TransportError),
{
    let digest = match extract_digest_from_reference(image_reference) {
        Ok(d) => d,
        Err(e) => {
            return Err(e);
        },
    };
    match derive_record_address(digest.as_str()) {
        Ok(address) => Ok((digest, address)),
        Err(e) => Err(e),
    }
}

/// The whole sign decision against a record store: extract the digest,
/// derive the address, create the record naming `signer`. The store's
/// write-once rule stands: a digest attested before fails with
/// `DuplicateAttestation` and changes nothing — which a caller treats as
/// already attested.
pub fn sign_digest(store: &mut AttestationStore, image_reference: &str, signer: &Vec<u8>) -> (r:
    Result<u64, SkelzError>)
    requires
        old(store).wf(),
        old(store).tx_count() < u64::MAX,
    ensures
        final(store).wf(),
        !has_digest_marker(image_reference@) ==> (r matches Err(e) && e is InvalidReference
            && final(store).contents() == old(store).contents()),
        (has_digest_marker(image_reference@) && spec_record_address(
            spec_extract_digest(image_reference@).unwrap(),
        ) is None) ==> (r matches Err(e) && e is TransportError && final(store).contents() == old(
            store,
        ).contents()),
        ({
            let digest = spec_extract_digest(image_reference@).unwrap();
            has_digest_marker(image_reference@) && spec_record_address(digest) is Some
        }) ==> ({
            let digest = spec_extract_digest(image_reference@).unwrap();
            let addr = spec_record_address(digest).unwrap();
            let outcome = spec_write(old(store).contents(), addr, (digest, signer@));
            &&& final(store).contents() == outcome.0
            &&& (r is Ok <==> outcome.1)
            &&& (r matches Err(e) ==> e is DuplicateAttestation)
        }),
        r matches Ok(tx) ==> tx == old(store).tx_count() && final(store).tx_count() == old(
            store,
        ).tx_count() + 1,
        r is Err ==> final(store).tx_count() == old(store).tx_count(),
{
    let plan = match prepare_attestation(image_reference) {
        Ok(p) => p,
        Err(e) => {
            return Err(e);
        },
    };
    let (digest, address) = plan;
    match store.write_signature(&address, digest.as_str(), signer) {
        Ok(tx) => Ok(tx),
        Err(e) => Err(e),
    }
}

/// The annotations a published evidence artifact must carry: the
/// transaction id under the signature key, the signed reference under the
/// original-image key, the creation instant, and the tool.
pub fn build_evidence_annotations(
    tx_id: &str,
    image_reference: &str,
    created: &str,
    tool: &str,
) -> (r: Vec<(String, String)>)
    ensures
        r@.len() == 4,
        spec_ann_lookup(r@, signature_annotation_key()) == Some(tx_id@),
        spec_ann_lookup(r@, original_image_annotation_key()) == Some(image_reference@),
        spec_ann_lookup(r@, created_annotation_key()) == Some(created@),
        spec_ann_lookup(r@, tool_annotation_key()) == Some(tool@),
{
    proof {
        reveal_strlit("skelz.signature");
        reveal_strlit("skelz.original-image");
        reveal_strlit("org.opencontainers.artifact.created");
        reveal_strlit("skelz.tool");
        assert("skelz.signature"@.len() == 15);
        assert("skelz.original-image"@.len() == 20);
        assert("org.opencontainers.artifact.created"@.len() == 35);
        assert("skelz.tool"@.len() == 10);
    }
    let mut anns: Vec<(String, String)> = Vec::new();
    anns.push((String::from_str("skelz.signature"), String::from_str(tx_id)));
    anns.push((String::from_str("skelz.original-image"), String::from_str(image_reference)));
    anns.push(
        (String::from_str("org.opencontainers.artifact.created"), String::from_str(created)),
    );
    anns.push((String::from_str("skelz.tool"), String::from_str(tool)));
    proof {
        let s = anns@;
        let s1 = s.drop_first();
        let s2 = s1.drop_first();
        let s3 = s2.drop_first();
        assert(s.len() == 4);
        assert(s1[0] == s[1]);
        assert(s2[0] == s[2]);
        assert(s3[0] == s[3]);
        assert(spec_ann_lookup(s, original_image_annotation_key()) == spec_ann_lookup(
            s1,
            original_image_annotation_key(),
        ));
        assert(spec_ann_lookup(s, created_annotation_key()) == spec_ann_lookup(
            s1,
            created_annotation_key(),
        ));
        assert(spec_ann_lookup(s1, created_annotation_key()) == spec_ann_lookup(
            s2,
            created_annotation_key(),
        ));
        assert(spec_ann_lookup(s, tool_annotation_key()) == spec_ann_lookup(
            s1,
            tool_annotation_key(),
        ));
        assert(spec_ann_lookup(s1, tool_annotation_key()) == spec_ann_lookup(
            s2,
            tool_annotation_key(),
        ));
        assert(spec_ann_lookup(s2, tool_annotation_key()) == spec_ann_lookup(
            s3,
            tool_annotation_key(),
        ));
    }
    anns
}

} // verus!
