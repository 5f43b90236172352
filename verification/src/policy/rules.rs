//! The individual rules of the admission pipeline. Each rule is a pure
//! function from manifest and submission context to a `PolicyCheck`.
use vstd::prelude::*;
use vstd::utf8::encode_utf8;
use vstd::bytes::{spec_u64_to_le_bytes, u64_to_le_bytes};
use crate::acceptable_use::spec_class_name;
use crate::external::{ed25519_accepts, ed25519_verify, sha256, sha256_of};
use crate::policy::decision::PolicyCheck;
use crate::policy::engine::SubmissionContext;
use crate::scheduler::manifest::{all_zero, is_all_zero, JobManifest};
use crate::scheduler::ConfidentialityLevel;
use crate::text::{decimal, join2, join3, join4, join_texts, join_with, spec_decimal};
use crate::types::spec_cid_text;

verus! {

/// Release channel of an approved artifact; promotion goes Dev, Staging,
/// Production.
#[derive(Debug, Clone, Copy, PartialEq, Eq, Structural, PartialOrd, Ord)]
pub enum ReleaseChannel {
    Dev,
    Staging,
    Production,
}

/// An approved artifact entry.
#[derive(Debug)]
pub struct ApprovedArtifact {
    /// CID text of the artifact.
    pub cid: String,
    /// Identity that signed it.
    pub signer: String,
    /// Identity that approved it.
    pub approver: String,
    /// Current release channel.
    pub channel: ReleaseChannel,
}

/// Registry of approved artifact CIDs with their signing records.
#[derive(Debug)]
pub struct ArtifactRegistry {
    /// CID texts that are approved.
    pub approved_cids: Vec<String>,
    /// Signing and approval records.
    pub artifacts: Vec<ApprovedArtifact>,
}

/// Approved egress endpoints; the default is empty (default-deny).
#[derive(Debug)]
pub struct EgressAllowlist {
    pub approved_endpoints: Vec<String>,
}

/// Views of a list of strings.
pub open spec fn texts(v: Seq<String>) -> Seq<Seq<char>> {
    v.map_values(|s: String| s@)
}

/// `i` is the first artifact record for the CID.
pub open spec fn first_record(arts: Seq<ApprovedArtifact>, cid: Seq<char>, i: int) -> bool {
    &&& 0 <= i < arts.len()
    &&& arts[i].cid@ == cid
    &&& forall|j: int| 0 <= j < i ==> #[trigger] arts[j].cid@ != cid
}

/// Registry validation: the CID must be approved and, when it has a record,
/// the first record's signer and approver must differ.
pub open spec fn spec_registry_validate(
    approved: Seq<Seq<char>>,
    arts: Seq<ApprovedArtifact>,
    cid: Seq<char>,
) -> Result<(), Seq<char>> {
    if !approved.contains(cid) {
        Err("CID "@ + cid + " not found in approved artifact registry"@)
    } else if exists|i: int| first_record(arts, cid, i) {
        let i = choose|i: int| first_record(arts, cid, i);
        if arts[i].signer@ == arts[i].approver@ {
            Err(
                "Separation of duties violation: signer and approver are the same identity ("@
                    + arts[i].signer@ + ")"@,
            )
        } else {
            Ok(())
        }
    } else {
        Ok(())
    }
}

/// Whether the text occurs in the list.
pub fn contains_text_in(list: &Vec<String>, t: &str) -> (r: bool)
    ensures
        r == texts(list@).contains(t@),
{
    let mut i: usize = 0;
    while i < list.len()
        invariant
            i <= list@.len(),
            forall|j: int| 0 <= j < i ==> list@[j]@ != t@,
        decreases list@.len() - i,
    {
        if crate::text::str_eq(list[i].as_str(), t) {
            assert(texts(list@)[i as int] == t@);
            return true;
        }
        i = i + 1;
    }
    proof {
        if texts(list@).contains(t@) {
            let k = choose|k: int| 0 <= k < texts(list@).len() && texts(list@)[k] == t@;
            assert(list@[k]@ == t@);
        }
    }
    false
}

impl ArtifactRegistry {
    /// Look up a CID: it must be approved, and its first record (if any) must
    /// show different signer and approver identities.
    pub fn validate(&self, cid: &str) -> (r: Result<(), String>)
        ensures
            match r {
                Ok(()) => spec_registry_validate(texts(self.approved_cids@), self.artifacts@, cid@) is Ok,
                Err(m) => spec_registry_validate(texts(self.approved_cids@), self.artifacts@, cid@)
                    == Err::<(), Seq<char>>(m@),
            },
    {
        if !contains_text_in(&self.approved_cids, cid) {
            return Err(join3("CID ", cid, " not found in approved artifact registry"));
        }
        let mut i: usize = 0;
        while i < self.artifacts.len()
            invariant
                i <= self.artifacts@.len(),
                texts(self.approved_cids@).contains(cid@),
                forall|j: int| 0 <= j < i ==> #[trigger] self.artifacts@[j].cid@ != cid@,
            decreases self.artifacts@.len() - i,
        {
            let a = &self.artifacts[i];
            if crate::text::str_eq(a.cid.as_str(), cid) {
                proof {
                    assert(first_record(self.artifacts@, cid@, i as int));
                    let k = choose|k: int| first_record(self.artifacts@, cid@, k);
                    if k < i {
                        assert(self.artifacts@[k].cid@ != cid@);
                    } else if k > i {
                        assert(self.artifacts@[i as int].cid@ != cid@);
                    }
                    assert(k == i);
                }
                if a.signer == a.approver {
                    return Err(join3(
                        "Separation of duties violation: signer and approver are the same identity (",
                        a.signer.as_str(),
                        ")",
                    ));
                }
                return Ok(());
            }
            i = i + 1;
        }
        Ok(())
    }
}

/// The view of a check with the given name, outcome and detail.
pub open spec fn check(name: Seq<char>, passed: bool, detail: Seq<char>) -> (Seq<char>, bool, Seq<char>) {
    (name, passed, detail)
}

/// Step 2: the submitter must have a peer ID and an HP score of at least 1.
pub open spec fn spec_submitter_identity(peer: Seq<char>, hp: u32) -> (Seq<char>, bool, Seq<char>) {
    if peer.len() == 0 {
        check("submitter_identity"@, false, "Submitter peer ID is empty"@)
    } else if hp < 1 {
        check(
            "submitter_identity"@,
            false,
            "Submitter HP score "@ + spec_decimal(hp as nat) + " below minimum threshold 1"@,
        )
    } else {
        check(
            "submitter_identity"@,
            true,
            "Submitter "@ + peer + " verified with HP score "@ + spec_decimal(hp as nat),
        )
    }
}

/// Verify submitter identity: registered peer ID and HP score at least 1.
pub fn check_submitter_identity(ctx: &SubmissionContext) -> (r: PolicyCheck)
    ensures
        r@ == spec_submitter_identity(ctx.submitter_peer_id@, ctx.submitter_hp_score),
{
    if ctx.submitter_peer_id.as_str().unicode_len() == 0 {
        return PolicyCheck::new("submitter_identity", false, String::from_str("Submitter peer ID is empty"));
    }
    if ctx.submitter_hp_score < 1 {
        let d = decimal(ctx.submitter_hp_score as u64);
        return PolicyCheck::new(
            "submitter_identity",
            false,
            join3("Submitter HP score ", d.as_str(), " below minimum threshold 1"),
        );
    }
    let d = decimal(ctx.submitter_hp_score as u64);
    PolicyCheck::new(
        "submitter_identity",
        true,
        join4("Submitter ", ctx.submitter_peer_id.as_str(), " verified with HP score ", d.as_str()),
    )
}

/// The bytes hashed to form a manifest's signing message: name, workload
/// CID text, each command element, each input CID text, output sink (all
/// UTF-8), then the wall-clock budget as 8 little-endian bytes.
pub open spec fn signing_material(m: &JobManifest) -> Seq<u8> {
    encode_utf8(m.name@) + encode_utf8(spec_cid_text(m.workload_cid@)) + m.command@.map_values(
        |c: String| encode_utf8(c@),
    ).flatten() + m.inputs@.map_values(|c: crate::types::Cid| encode_utf8(spec_cid_text(c@))).flatten()
        + encode_utf8(m.output_sink@) + spec_u64_to_le_bytes(m.max_wallclock_ms)
}

/// The canonical signing bytes of a manifest: SHA-256 of its signing material.
pub open spec fn spec_signing_bytes(m: &JobManifest) -> Seq<u8> {
    sha256_of(signing_material(m))
}

/// Append bytes to a buffer.
fn push_bytes(buf: &mut Vec<u8>, bytes: &[u8])
    ensures
        final(buf)@ == old(buf)@ + bytes@,
{
    let ghost start = buf@;
    let mut i: usize = 0;
    while i < bytes.len()
        invariant
            i <= bytes@.len(),
            buf@ == start + bytes@.take(i as int),
        decreases bytes@.len() - i,
    {
        buf.push(bytes[i]);
        assert(bytes@.take(i + 1) =~= bytes@.take(i as int).push(bytes@[i as int]));
        i = i + 1;
    }
    assert(bytes@.take(bytes@.len() as int) =~= bytes@);
}

/// Canonical signing bytes of a manifest (every field but the signature).
pub fn manifest_signing_bytes(manifest: &JobManifest) -> (r: Vec<u8>)
    ensures
        r@ == spec_signing_bytes(manifest),
        r@.len() == 32,
{
    let mut buf: Vec<u8> = Vec::new();
    push_bytes(&mut buf, manifest.name.as_str().as_bytes());
    let wl = manifest.workload_cid.to_text();
    push_bytes(&mut buf, wl.as_str().as_bytes());
    let ghost head = buf@;
    let ghost cmds = manifest.command@.map_values(|c: String| encode_utf8(c@));
    let mut i: usize = 0;
    while i < manifest.command.len()
        invariant
            i <= manifest.command@.len(),
            cmds == manifest.command@.map_values(|c: String| encode_utf8(c@)),
            buf@ == head + cmds.take(i as int).flatten(),
        decreases manifest.command@.len() - i,
    {
        push_bytes(&mut buf, manifest.command[i].as_str().as_bytes());
        proof {
            assert(cmds.take(i + 1) =~= cmds.take(i as int).push(cmds[i as int]));
            cmds.take(i as int).lemma_flatten_push(cmds[i as int]);
        }
        i = i + 1;
    }
    assert(cmds.take(cmds.len() as int) =~= cmds);
    let ghost head2 = buf@;
    let ghost ins = manifest.inputs@.map_values(|c: crate::types::Cid| encode_utf8(spec_cid_text(c@)));
    let mut k: usize = 0;
    while k < manifest.inputs.len()
        invariant
            k <= manifest.inputs@.len(),
            ins == manifest.inputs@.map_values(|c: crate::types::Cid| encode_utf8(spec_cid_text(c@))),
            buf@ == head2 + ins.take(k as int).flatten(),
        decreases manifest.inputs@.len() - k,
    {
        let t = manifest.inputs[k].to_text();
        push_bytes(&mut buf, t.as_str().as_bytes());
        proof {
            assert(ins.take(k + 1) =~= ins.take(k as int).push(ins[k as int]));
            ins.take(k as int).lemma_flatten_push(ins[k as int]);
        }
        k = k + 1;
    }
    assert(ins.take(ins.len() as int) =~= ins);
    push_bytes(&mut buf, manifest.output_sink.as_str().as_bytes());
    let le = u64_to_le_bytes(manifest.max_wallclock_ms);
    push_bytes(&mut buf, le.as_slice());
    assert(buf@ =~= signing_material(manifest));
    sha256(buf.as_slice())
}

/// Step 3: non-empty, non-zero signature of the right size that verifies
/// under the submitter's 32-byte Ed25519 key over the signing bytes.
pub open spec fn spec_check_signature(m: &JobManifest, public_key: Seq<u8>) -> (Seq<char>, bool, Seq<char>) {
    let sig = m.submitter_signature@;
    if sig.len() == 0 {
        check("signature_verification"@, false, "Submitter signature is empty"@)
    } else if all_zero(sig) {
        check("signature_verification"@, false, "Submitter signature is all zeros — rejected per FR-S012"@)
    } else if public_key.len() != 32 {
        check(
            "signature_verification"@,
            false,
            "Submitter public key has invalid length "@ + spec_decimal(public_key.len()) + " (expected 32 bytes)"@,
        )
    } else if sig.len() != 64 {
        check(
            "signature_verification"@,
            false,
            "Signature has invalid length "@ + spec_decimal(sig.len()) + " (expected 64 bytes)"@,
        )
    } else if ed25519_accepts(public_key, spec_signing_bytes(m), sig) {
        check("signature_verification"@, true, "Ed25519 signature verified against submitter public key"@)
    } else {
        check("signature_verification"@, false, "Ed25519 signature verification failed"@)
    }
}

/// Verify the submitter's signature over the manifest.
pub fn check_signature(manifest: &JobManifest, ctx: &SubmissionContext) -> (r: PolicyCheck)
    ensures
        r@ == spec_check_signature(manifest, ctx.submitter_public_key@),
{
    let sig = manifest.submitter_signature.as_slice();
    if sig.len() == 0 {
        return PolicyCheck::new("signature_verification", false, String::from_str("Submitter signature is empty"));
    }
    if is_all_zero(sig) {
        return PolicyCheck::new(
            "signature_verification",
            false,
            String::from_str("Submitter signature is all zeros — rejected per FR-S012"),
        );
    }
    let pk = ctx.submitter_public_key.as_slice();
    if pk.len() != 32 {
        let d = decimal(pk.len() as u64);
        return PolicyCheck::new(
            "signature_verification",
            false,
            join3("Submitter public key has invalid length ", d.as_str(), " (expected 32 bytes)"),
        );
    }
    if sig.len() != 64 {
        let d = decimal(sig.len() as u64);
        return PolicyCheck::new(
            "signature_verification",
            false,
            join3("Signature has invalid length ", d.as_str(), " (expected 64 bytes)"),
        );
    }
    let message = manifest_signing_bytes(manifest);
    if ed25519_verify(pk, message.as_slice(), sig) {
        PolicyCheck::new(
            "signature_verification",
            true,
            String::from_str("Ed25519 signature verified against submitter public key"),
        )
    } else {
        PolicyCheck::new("signature_verification", false, String::from_str("Ed25519 signature verification failed"))
    }
}

/// Step 4: the workload CID against an optional registry (given as approved
/// CID texts and records).
pub open spec fn spec_check_artifact_registry(
    cid: Seq<char>,
    registry: Option<(Seq<Seq<char>>, Seq<ApprovedArtifact>)>,
) -> (Seq<char>, bool, Seq<char>) {
    if cid.len() == 0 {
        check("artifact_registry"@, false, "Workload CID is empty"@)
    } else {
        match registry {
            Some((approved, arts)) => match spec_registry_validate(approved, arts, cid) {
                Ok(()) => check(
                    "artifact_registry"@,
                    true,
                    "Workload CID "@ + cid + " approved in artifact registry"@,
                ),
                Err(reason) => check("artifact_registry"@, false, reason),
            },
            None => check(
                "artifact_registry"@,
                true,
                "Workload CID "@ + cid + " present (no registry configured)"@,
            ),
        }
    }
}

/// The registry's view as approved CID texts and records.
pub open spec fn registry_view(reg: Option<&ArtifactRegistry>) -> Option<(Seq<Seq<char>>, Seq<ApprovedArtifact>)> {
    match reg {
        Some(r) => Some((texts(r.approved_cids@), r.artifacts@)),
        None => None,
    }
}

/// Check the workload artifact with no registry configured.
pub fn check_artifact_registry(manifest: &JobManifest) -> (r: PolicyCheck)
    ensures
        r@ == spec_check_artifact_registry(spec_cid_text(manifest.workload_cid@), None),
{
    check_artifact_registry_with(manifest, None)
}

/// Check the workload artifact CID against an explicit registry.
pub fn check_artifact_registry_with(manifest: &JobManifest, registry: Option<&ArtifactRegistry>) -> (r: PolicyCheck)
    ensures
        r@ == spec_check_artifact_registry(spec_cid_text(manifest.workload_cid@), registry_view(registry)),
{
    let cid_str = manifest.workload_cid.to_text();
    if cid_str.as_str().unicode_len() == 0 {
        return PolicyCheck::new("artifact_registry", false, String::from_str("Workload CID is empty"));
    }
    match registry {
        Some(reg) => match reg.validate(cid_str.as_str()) {
            Ok(()) => PolicyCheck::new(
                "artifact_registry",
                true,
                join3("Workload CID ", cid_str.as_str(), " approved in artifact registry"),
            ),
            Err(reason) => PolicyCheck::new("artifact_registry", false, reason),
        },
        None => PolicyCheck::new(
            "artifact_registry",
            true,
            join3("Workload CID ", cid_str.as_str(), " present (no registry configured)"),
        ),
    }
}

/// Names of acceptable-use classes.
pub open spec fn class_names(classes: Seq<crate::acceptable_use::AcceptableUseClass>) -> Seq<Seq<char>> {
    classes.map_values(|c: crate::acceptable_use::AcceptableUseClass| spec_class_name(c))
}

/// `i` is the first class whose name is quarantined.
pub open spec fn first_quarantined(names: Seq<Seq<char>>, quarantined: Seq<Seq<char>>, i: int) -> bool {
    &&& 0 <= i < names.len()
    &&& quarantined.contains(names[i])
    &&& forall|j: int| 0 <= j < i ==> !quarantined.contains(#[trigger] names[j])
}

/// Step 5: classes must be declared and none may be quarantined.
pub open spec fn spec_check_workload_class(names: Seq<Seq<char>>, quarantined: Seq<Seq<char>>) -> (Seq<char>, bool, Seq<char>) {
    if names.len() == 0 {
        check("workload_class"@, false, "No acceptable use classes declared"@)
    } else if exists|i: int| first_quarantined(names, quarantined, i) {
        let i = choose|i: int| first_quarantined(names, quarantined, i);
        check(
            "workload_class"@,
            false,
            "Workload class "@ + names[i] + " is quarantined — rejected per FR-S062"@,
        )
    } else {
        check("workload_class"@, true, "Workload class ["@ + join_with(names, ", "@) + "] approved"@)
    }
}

/// Check workload classes with an empty quarantine list.
pub fn check_workload_class(manifest: &JobManifest) -> (r: PolicyCheck)
    ensures
        r@ == spec_check_workload_class(class_names(manifest.acceptable_use_classes@), Seq::empty()),
{
    let none: Vec<String> = Vec::new();
    assert(texts(none@) =~= Seq::<Seq<char>>::empty());
    check_workload_class_with_quarantine(manifest, &none)
}

/// Check workload classes against a quarantine list of class names.
pub fn check_workload_class_with_quarantine(manifest: &JobManifest, quarantined_classes: &Vec<String>) -> (r: PolicyCheck)
    ensures
        r@ == spec_check_workload_class(class_names(manifest.acceptable_use_classes@), texts(quarantined_classes@)),
{
    let classes = &manifest.acceptable_use_classes;
    let ghost names = class_names(classes@);
    let ghost q = texts(quarantined_classes@);
    if classes.len() == 0 {
        return PolicyCheck::new("workload_class", false, String::from_str("No acceptable use classes declared"));
    }
    let mut rendered: Vec<String> = Vec::new();
    let mut i: usize = 0;
    while i < classes.len()
        invariant
            i <= classes@.len(),
            names == class_names(classes@),
            classes@ == manifest.acceptable_use_classes@,
            q == texts(quarantined_classes@),
            forall|j: int| 0 <= j < i ==> !q.contains(#[trigger] names[j]),
            texts(rendered@) == names.take(i as int),
        decreases classes@.len() - i,
    {
        let name = classes[i].name();
        assert(names[i as int] == name@);
        if contains_text_in(quarantined_classes, name) {
            proof {
                assert(first_quarantined(names, q, i as int));
                let k = choose|k: int| first_quarantined(names, q, k);
                if k < i {
                } else if k > i {
                    assert(!q.contains(names[i as int]));
                }
                assert(k == i);
            }
            return PolicyCheck::new(
                "workload_class",
                false,
                join3("Workload class ", name, " is quarantined — rejected per FR-S062"),
            );
        }
        let ghost before = rendered@;
        rendered.push(String::from_str(name));
        assert(texts(rendered@) =~= texts(before).push(name@));
        assert(names.take(i + 1) =~= names.take(i as int).push(names[i as int]));
        assert(texts(rendered@) =~= names.take(i + 1));
        i = i + 1;
    }
    assert(names.take(classes@.len() as int) =~= names);
    let joined = join_texts(&rendered, ", ");
    PolicyCheck::new("workload_class", true, join3("Workload class [", joined.as_str(), "] approved"))
}

/// Step 6: submissions this epoch must be below the quota.
pub open spec fn spec_check_quota(count: u32, quota: u32) -> (Seq<char>, bool, Seq<char>) {
    if count >= quota {
        check(
            "quota_enforcement"@,
            false,
            "Submitter has "@ + spec_decimal(count as nat) + " submissions this epoch, quota is "@
                + spec_decimal(quota as nat),
        )
    } else {
        check(
            "quota_enforcement"@,
            true,
            "Quota OK: "@ + spec_decimal(count as nat) + "/"@ + spec_decimal(quota as nat)
                + " submissions this epoch"@,
        )
    }
}

/// Check the submitter's per-epoch quota.
pub fn check_quota(ctx: &SubmissionContext) -> (r: PolicyCheck)
    ensures
        r@ == spec_check_quota(ctx.epoch_submission_count, ctx.epoch_submission_quota),
{
    let c = decimal(ctx.epoch_submission_count as u64);
    let q = decimal(ctx.epoch_submission_quota as u64);
    if ctx.epoch_submission_count >= ctx.epoch_submission_quota {
        let mut d = join4("Submitter has ", c.as_str(), " submissions this epoch, quota is ", q.as_str());
        return PolicyCheck::new("quota_enforcement", false, d);
    }
    let mut d = join4("Quota OK: ", c.as_str(), "/", q.as_str());
    d.append(" submissions this epoch");
    PolicyCheck::new("quota_enforcement", true, d)
}

/// Step 7: a job that requests egress must declare endpoints, and every
/// declared endpoint must be in the approved allowlist; without an allowlist
/// egress is refused.
pub open spec fn spec_check_egress(
    egress_bytes: u64,
    endpoints: Seq<Seq<char>>,
    allowlist: Option<Seq<Seq<char>>>,
) -> (Seq<char>, bool, Seq<char>) {
    if egress_bytes == 0 {
        check("egress_allowlist"@, true, "No network egress requested — default-deny applies"@)
    } else if endpoints.len() == 0 {
        check(
            "egress_allowlist"@,
            false,
            "Network egress of "@ + spec_decimal(egress_bytes as nat) + " bytes requested but no endpoints declared"@,
        )
    } else {
        match allowlist {
            Some(approved) => {
                let rejected = endpoints.filter(|e: Seq<char>| !approved.contains(e));
                if rejected.len() > 0 {
                    check("egress_allowlist"@, false, "Unapproved endpoints: "@ + join_with(rejected, ", "@))
                } else {
                    check(
                        "egress_allowlist"@,
                        true,
                        "All "@ + spec_decimal(endpoints.len()) + " declared endpoints approved"@,
                    )
                }
            },
            None => check(
                "egress_allowlist"@,
                false,
                "Network egress of "@ + spec_decimal(egress_bytes as nat)
                    + " bytes requested but no approved allowlist configured"@,
            ),
        }
    }
}

/// Egress is admitted only when nothing is sent, or when endpoints are
/// declared and an allowlist is configured that holds every one of them.
/// In particular, with no allowlist configured a job that requests any
/// egress never passes.
pub proof fn law_egress_needs_allowlist(
    egress_bytes: u64,
    endpoints: Seq<Seq<char>>,
    allowlist: Option<Seq<Seq<char>>>,
)
    ensures
        spec_check_egress(egress_bytes, endpoints, None).1 == (egress_bytes == 0),
        spec_check_egress(egress_bytes, endpoints, allowlist).1 <==> {
            ||| egress_bytes == 0
            ||| {
                &&& endpoints.len() > 0
                &&& allowlist is Some
                &&& forall|i: int| 0 <= i < endpoints.len() ==> allowlist->0.contains(#[trigger] endpoints[i])
            }
        },
{
    broadcast use vstd::seq_lib::group_filter_ensures;
    if egress_bytes != 0 && endpoints.len() > 0 && allowlist is Some {
        let approved = allowlist->0;
        let pred = |e: Seq<char>| !approved.contains(e);
        let rejected = endpoints.filter(pred);
        if rejected.len() > 0 {
            assert(pred(rejected[0]));
            assert(rejected.contains(rejected[0]));
            endpoints.lemma_filter_contains_rev(pred, rejected[0]);
            let i = choose|i: int| 0 <= i < endpoints.len() && endpoints[i] == rejected[0];
            assert(!approved.contains(endpoints[i]));
        } else {
            assert forall|i: int| 0 <= i < endpoints.len() implies approved.contains(#[trigger] endpoints[i]) by {
                if !approved.contains(endpoints[i]) {
                    endpoints.lemma_filter_contains(pred, i);
                    assert(rejected.contains(endpoints[i]));
                }
            }
        }
    }
}

/// Check egress with no allowlist configured.
pub fn check_egress_allowlist(manifest: &JobManifest) -> (r: PolicyCheck)
    ensures
        r@ == spec_check_egress(manifest.resources.network_egress_bytes, texts(manifest.allowed_endpoints@), None),
{
    check_egress_allowlist_with(manifest, None)
}

/// Check declared egress endpoints against an optional approved allowlist.
pub fn check_egress_allowlist_with(manifest: &JobManifest, allowlist: Option<&EgressAllowlist>) -> (r: PolicyCheck)
    ensures
        r@ == spec_check_egress(
            manifest.resources.network_egress_bytes,
            texts(manifest.allowed_endpoints@),
            match allowlist {
                Some(a) => Some(texts(a.approved_endpoints@)),
                None => None,
            },
        ),
{
    let bytes = manifest.resources.network_egress_bytes;
    if bytes == 0 {
        return PolicyCheck::new(
            "egress_allowlist",
            true,
            String::from_str("No network egress requested — default-deny applies"),
        );
    }
    if manifest.allowed_endpoints.len() == 0 {
        let d = decimal(bytes);
        return PolicyCheck::new(
            "egress_allowlist",
            false,
            join3("Network egress of ", d.as_str(), " bytes requested but no endpoints declared"),
        );
    }
    match allowlist {
        Some(al) => {
            let ghost eps = texts(manifest.allowed_endpoints@);
            let ghost approved = texts(al.approved_endpoints@);
            let ghost pred = |e: Seq<char>| !approved.contains(e);
            let mut rejected: Vec<String> = Vec::new();
            let mut i: usize = 0;
            while i < manifest.allowed_endpoints.len()
                invariant
                    i <= manifest.allowed_endpoints@.len(),
                    eps == texts(manifest.allowed_endpoints@),
                    approved == texts(al.approved_endpoints@),
                    pred == (|e: Seq<char>| !approved.contains(e)),
                    texts(rejected@) == eps.take(i as int).filter(pred),
                decreases manifest.allowed_endpoints@.len() - i,
            {
                let ep = &manifest.allowed_endpoints[i];
                proof {
                    assert(eps.take(i + 1) =~= eps.take(i as int).push(ep@));
                    eps.take(i as int).lemma_filter_push(ep@, pred);
                }
                if !contains_text_in(&al.approved_endpoints, ep.as_str()) {
                    rejected.push(ep.clone());
                    assert(texts(rejected@) =~= eps.take(i as int).filter(pred).push(ep@));
                }
                i = i + 1;
            }
            assert(eps.take(eps.len() as int) =~= eps);
            if rejected.len() > 0 {
                let joined = join_texts(&rejected, ", ");
                return PolicyCheck::new("egress_allowlist", false, join2("Unapproved endpoints: ", joined.as_str()));
            }
            let d = decimal(manifest.allowed_endpoints.len() as u64);
            PolicyCheck::new("egress_allowlist", true, join3("All ", d.as_str(), " declared endpoints approved"))
        },
        None => {
            let d = decimal(bytes);
            PolicyCheck::new(
                "egress_allowlist",
                false,
                join3("Network egress of ", d.as_str(), " bytes requested but no approved allowlist configured"),
            )
        },
    }
}

/// Step 7b: data classification is compatible with some host pool.
pub open spec fn spec_check_data_classification(level: ConfidentialityLevel) -> (Seq<char>, bool, Seq<char>) {
    match level {
        ConfidentialityLevel::Public => check(
            "data_classification"@,
            true,
            "Public data — compatible with all host pools"@,
        ),
        ConfidentialityLevel::ConfidentialMedium => check(
            "data_classification"@,
            true,
            "ConfidentialMedium — compatible with T1+ host pools"@,
        ),
        ConfidentialityLevel::ConfidentialHigh => check(
            "data_classification"@,
            true,
            "ConfidentialHigh — requires T3+ hosts with TEE attestation"@,
        ),
    }
}

/// Check that the data classification is compatible with the host pools.
pub fn check_data_classification(manifest: &JobManifest) -> (r: PolicyCheck)
    ensures
        r@ == spec_check_data_classification(manifest.confidentiality),
{
    match manifest.confidentiality {
        ConfidentialityLevel::Public => PolicyCheck::new(
            "data_classification",
            true,
            String::from_str("Public data — compatible with all host pools"),
        ),
        ConfidentialityLevel::ConfidentialMedium => PolicyCheck::new(
            "data_classification",
            true,
            String::from_str("ConfidentialMedium — compatible with T1+ host pools"),
        ),
        ConfidentialityLevel::ConfidentialHigh => PolicyCheck::new(
            "data_classification",
            true,
            String::from_str("ConfidentialHigh — requires T3+ hosts with TEE attestation"),
        ),
    }
}

/// Step 8: the submitter must not be banned.
pub open spec fn spec_check_ban_status(banned: bool) -> (Seq<char>, bool, Seq<char>) {
    if banned {
        check("ban_status"@, false, "Submitter is currently banned"@)
    } else {
        check("ban_status"@, true, "Submitter is not banned"@)
    }
}

/// Check the submitter's ban status.
pub fn check_ban_status(ctx: &SubmissionContext) -> (r: PolicyCheck)
    ensures
        r@ == spec_check_ban_status(ctx.submitter_banned),
{
    if ctx.submitter_banned {
        return PolicyCheck::new("ban_status", false, String::from_str("Submitter is currently banned"));
    }
    PolicyCheck::new("ban_status", true, String::from_str("Submitter is not banned"))
}

} // verus!
