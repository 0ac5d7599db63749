//! ArtifactEvidence: registry evidence artifacts and their selection.
//!
//! Zero or more evidence artifacts may be attached to one image over time —
//! re-signing creates new ones. An artifact counts as evidence for an image
//! when it has the evidence artifact type, names exactly that image, and
//! carries a signature annotation. Among the evidence, the artifact with
//! the latest `created` timestamp is authoritative; artifacts whose
//! timestamp is missing or unparseable sort as the oldest possible
//! instant, and of equal timestamps the earliest-listed artifact wins, a
//! deterministic tie-break.

use vstd::prelude::*;
use vstd::string::*;

use crate::errors::SkelzError;
use crate::strutil::str_eq;

verus! {

/// What RFC 3339 timestamp parsing returns on a text, as milliseconds
/// since the epoch; fixed by the text alone, absent for text that is no
/// well-formed timestamp.
pub uninterp spec fn rfc3339_millis_of(s: Seq<char>) -> Option<i64>;

/// Relies on chrono's `DateTime::parse_from_rfc3339`: parsing is a pure
/// function of the text; the result is converted to milliseconds since the
/// epoch.
#[verifier::external_body]
fn parse_rfc3339_millis(s: &str) -> (r: Option<i64>)
    ensures
        r == rfc3339_millis_of(s@),
{
    match chrono::DateTime::parse_from_rfc3339(s) {
        Ok(dt) => Some(dt.timestamp_millis()),
        Err(_) => None,
    }
}

/// An evidence artifact attached to an image in its registry, as the
/// registry lists it: identity, content metadata, annotations, and the
/// artifacts attached to it in turn.
pub struct OciArtifact {
    pub reference: String,
    pub media_type: String,
    pub digest: String,
    pub size: u64,
    pub annotations: Vec<(String, String)>,
    pub artifact_type: String,
    pub referrers: Vec<OciArtifact>,
}

/// What the registry returns when asked for an image's referrers: the
/// image's own identity and the attached artifacts.
pub struct OciDiscoverResponse {
    pub reference: String,
    pub media_type: String,
    pub digest: String,
    pub size: u64,
    pub referrers: Vec<OciArtifact>,
}

/// A content descriptor of an OCI manifest: what it points at and how big
/// it is.
pub struct OciDescriptor {
    pub media_type: String,
    pub size: u64,
    pub digest: String,
    pub annotations: Option<Vec<(String, String)>>,
}

/// An OCI image manifest: its configuration, its layers, and its
/// annotations.
pub struct OciManifest {
    pub schema_version: u32,
    pub media_type: String,
    pub config: OciDescriptor,
    pub layers: Vec<OciDescriptor>,
    pub annotations: Option<Vec<(String, String)>>,
}

/// The value of the first annotation carrying `key`.
pub open spec fn spec_ann_lookup(anns: Seq<(String, String)>, key: Seq<char>) -> Option<Seq<char>>
    decreases anns.len(),
{
    if anns.len() == 0 {
        None
    } else if anns[0].0@ == key {
        Some(anns[0].1@)
    } else {
        spec_ann_lookup(anns.drop_first(), key)
    }
}

/// Looks an annotation up by key.
pub fn ann_lookup<'a>(anns: &'a Vec<(String, String)>, key: &str) -> (r: Option<&'a String>)
    ensures
        match r {
            Some(v) => spec_ann_lookup(anns@, key@) == Some(v@),
            None => spec_ann_lookup(anns@, key@) is None,
        },
{
    let n = anns.len();
    proof {
        assert(anns@.subrange(0, n as int) =~= anns@);
    }
    let mut i: usize = 0;
    while i < n
        invariant
            0 <= i <= n,
            n == anns@.len(),
            spec_ann_lookup(anns@, key@) == spec_ann_lookup(
                anns@.subrange(i as int, n as int),
                key@,
            ),
        decreases n - i,
    {
        proof {
            assert(anns@.subrange(i as int, n as int)[0] == anns@[i as int]);
            assert(anns@.subrange(i as int, n as int).drop_first() =~= anns@.subrange(
                i as int + 1,
                n as int,
            ));
        }
        let entry = &anns[i];
        if str_eq(entry.0.as_str(), key) {
            return Some(&entry.1);
        }
        i += 1;
    }
    proof {
        assert(anns@.subrange(n as int, n as int).len() == 0);
    }
    None
}

/// The annotation key carrying the ledger transaction of the signature.
pub open spec fn signature_annotation_key() -> Seq<char> {
    "skelz.signature"@
}

/// The annotation key naming the image the evidence was made for.
pub open spec fn original_image_annotation_key() -> Seq<char> {
    "skelz.original-image"@
}

/// The annotation key carrying the evidence's creation instant.
pub open spec fn created_annotation_key() -> Seq<char> {
    "org.opencontainers.artifact.created"@
}

/// The older annotation key some registries use for the creation instant.
pub open spec fn created_fallback_annotation_key() -> Seq<char> {
    "org.opencontainers.image.created"@
}

/// The annotation key naming the signing tool.
pub open spec fn tool_annotation_key() -> Seq<char> {
    "skelz.tool"@
}

/// The artifact type that marks an attached artifact as evidence.
pub open spec fn evidence_artifact_type() -> Seq<char> {
    "application/vnd.skelz.proof.v1+json"@
}

/// True when `a` is evidence for `expected_image`: evidence-typed, naming
/// exactly that image, and carrying a signature annotation.
pub open spec fn is_skelz_evidence(a: OciArtifact, expected_image: Seq<char>) -> bool {
    &&& spec_ann_lookup(a.annotations@, signature_annotation_key()) is Some
    &&& a.artifact_type@ == evidence_artifact_type()
    &&& spec_ann_lookup(a.annotations@, original_image_annotation_key()) == Some(expected_image)
}

/// Whether an artifact is evidence for `expected_image`.
pub fn is_evidence_artifact(a: &OciArtifact, expected_image: &str) -> (b: bool)
    ensures
        b == is_skelz_evidence(*a, expected_image@),
{
    if ann_lookup(&a.annotations, "skelz.signature").is_none() {
        return false;
    }
    if !str_eq(a.artifact_type.as_str(), "application/vnd.skelz.proof.v1+json") {
        return false;
    }
    match ann_lookup(&a.annotations, "skelz.original-image") {
        Some(v) => str_eq(v.as_str(), expected_image),
        None => false,
    }
}

/// The creation text of an artifact: the created annotation, or the older
/// fallback key when the first is absent.
pub open spec fn spec_created_text(a: OciArtifact) -> Option<Seq<char>> {
    match spec_ann_lookup(a.annotations@, created_annotation_key()) {
        Some(t) => Some(t),
        None => spec_ann_lookup(a.annotations@, created_fallback_annotation_key()),
    }
}

/// The artifact's effective creation instant for ordering: the parsed
/// timestamp, or the oldest possible instant when the annotation is
/// missing or unparseable.
pub open spec fn spec_created_ts(a: OciArtifact) -> int {
    match spec_created_text(a) {
        Some(t) => match rfc3339_millis_of(t) {
            Some(ms) => ms as int,
            None => i64::MIN as int,
        },
        None => i64::MIN as int,
    }
}

/// The effective creation instant of an artifact.
pub fn created_timestamp(a: &OciArtifact) -> (r: i64)
    ensures
        r as int == spec_created_ts(*a),
{
    let txt = match ann_lookup(&a.annotations, "org.opencontainers.artifact.created") {
        Some(t) => Some(t),
        None => ann_lookup(&a.annotations, "org.opencontainers.image.created"),
    };
    match txt {
        Some(t) => match parse_rfc3339_millis(t.as_str()) {
            Some(ms) => ms,
            None => i64::MIN,
        },
        None => i64::MIN,
    }
}

/// True when `arts[i]` is the authoritative evidence for
/// `expected_image`: evidence itself, no evidence is newer, and of the
/// equally new it is the earliest listed.
pub open spec fn is_selected_index(arts: Seq<OciArtifact>, expected_image: Seq<char>, i: int) -> bool {
    &&& 0 <= i < arts.len()
    &&& is_skelz_evidence(arts[i], expected_image)
    &&& forall|j: int|
        0 <= j < arts.len() && is_skelz_evidence(arts[j], expected_image)
            ==> spec_created_ts(arts[j]) <= spec_created_ts(arts[i])
    &&& forall|j: int|
        0 <= j < i && is_skelz_evidence(arts[j], expected_image) ==> spec_created_ts(arts[j])
            < spec_created_ts(arts[i])
}

/// Selects the authoritative evidence artifact for `expected_image`,
/// returning its position; fails with `NoEvidenceFound` exactly when no
/// artifact is evidence for that image.
pub fn get_latest_skelz_artifact(artifacts: &Vec<OciArtifact>, expected_image: &str) -> (r:
    Result<usize, SkelzError>)
    ensures
        r is Ok <==> exists|j: int|
            0 <= j < artifacts@.len() && is_skelz_evidence(artifacts@[j], expected_image@),
        r matches Ok(i) ==> is_selected_index(artifacts@, expected_image@, i as int),
        r matches Err(e) ==> e matches SkelzError::NoEvidenceFound(m) && m@ == expected_image@,
{
    let n = artifacts.len();
    let mut best: usize = 0;
    let mut found = false;
    let mut best_ts: i64 = 0;
    let mut i: usize = 0;
    while i < n
        invariant
            0 <= i <= n,
            n == artifacts@.len(),
            !found ==> forall|j: int|
                0 <= j < i ==> !is_skelz_evidence(artifacts@[j], expected_image@),
            found ==> {
                &&& best < i
                &&& is_skelz_evidence(artifacts@[best as int], expected_image@)
                &&& best_ts as int == spec_created_ts(artifacts@[best as int])
                &&& forall|j: int|
                    0 <= j < i && is_skelz_evidence(artifacts@[j], expected_image@)
                        ==> spec_created_ts(artifacts@[j]) <= best_ts as int
                &&& forall|j: int|
                    0 <= j < best && is_skelz_evidence(artifacts@[j], expected_image@)
                        ==> spec_created_ts(artifacts@[j]) < best_ts as int
            },
        decreases n - i,
    {
        let a = &artifacts[i];
        if is_evidence_artifact(a, expected_image) {
            let ts = created_timestamp(a);
            if !found || ts > best_ts {
                best = i;
                best_ts = ts;
                found = true;
            }
        }
        i += 1;
    }
    if found {
        Ok(best)
    } else {
        Err(SkelzError::NoEvidenceFound(String::from_str(expected_image)))
    }
}

/// Law: the authoritative choice is deterministic — two positions that
/// both qualify are the same position.
pub proof fn lemma_selected_index_unique(
    arts: Seq<OciArtifact>,
    expected_image: Seq<char>,
    i: int,
    j: int,
)
    requires
        is_selected_index(arts, expected_image, i),
        is_selected_index(arts, expected_image, j),
    ensures
        i == j,
{
    if i < j {
        assert(spec_created_ts(arts[i]) < spec_created_ts(arts[j]));
        assert(spec_created_ts(arts[j]) <= spec_created_ts(arts[i]));
    }
    if j < i {
        assert(spec_created_ts(arts[j]) < spec_created_ts(arts[i]));
        assert(spec_created_ts(arts[i]) <= spec_created_ts(arts[j]));
    }
}

/// Law: of two evidence artifacts for the same image, created one before
/// the other, the later-created one is authoritative.
pub proof fn lemma_select_latest_prefers_newer(
    a1: OciArtifact,
    a2: OciArtifact,
    expected_image: Seq<char>,
)
    requires
        is_skelz_evidence(a1, expected_image),
        is_skelz_evidence(a2, expected_image),
        spec_created_ts(a1) < spec_created_ts(a2),
    ensures
        is_selected_index(seq![a1, a2], expected_image, 1),
        !is_selected_index(seq![a1, a2], expected_image, 0),
{
    let arts = seq![a1, a2];
    assert(arts[0] == a1);
    assert(arts[1] == a2);
}

} // verus!
