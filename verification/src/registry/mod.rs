//! Registry of approved workload artifacts, keyed by CID, with revocation.
//! An artifact is approved by an identity other than the one that signed it.
pub mod transparency;

use vstd::prelude::*;
use crate::keyed::{keyed_map, last_of_key, lemma_keyed_absent, lemma_keyed_last, lemma_keyed_push, lemma_keyed_update};
use crate::text::str_eq;
use crate::types::{spec_cid_text, Cid, Timestamp};

verus! {

/// An artifact approved for execution.
#[derive(Debug)]
pub struct ApprovedArtifact {
    /// CID of the artifact.
    pub artifact_cid: Cid,
    /// Workload class it belongs to.
    pub workload_class: String,
    /// Identity that signed it.
    pub signer_peer_id: String,
    /// Identity that approved it.
    pub approved_by: String,
    /// When it was approved.
    pub approved_at: Timestamp,
    /// Whether it was revoked.
    pub revoked: bool,
    /// When it was revoked.
    pub revoked_at: Option<Timestamp>,
    /// Transparency-log entry, if logged.
    pub transparency_log_entry: Option<String>,
}

/// An artifact as values.
pub type ArtifactView = ((u64, u64, Seq<u8>), Seq<char>, Seq<char>, Seq<char>, u64, bool, Option<u64>, Option<Seq<char>>);

/// The text views of an optional string.
pub open spec fn opt_text(o: Option<String>) -> Option<Seq<char>> {
    match o {
        Some(s) => Some(s@),
        None => None,
    }
}

/// The raw times of an optional timestamp.
pub open spec fn opt_time(o: Option<Timestamp>) -> Option<u64> {
    match o {
        Some(t) => Some(t.0),
        None => None,
    }
}

impl View for ApprovedArtifact {
    type V = ArtifactView;

    open spec fn view(&self) -> ArtifactView {
        (
            self.artifact_cid@,
            self.workload_class@,
            self.signer_peer_id@,
            self.approved_by@,
            self.approved_at.0,
            self.revoked,
            opt_time(self.revoked_at),
            opt_text(self.transparency_log_entry),
        )
    }
}

impl Clone for ApprovedArtifact {
    fn clone(&self) -> (r: Self)
        ensures
            r@ == self@,
    {
        ApprovedArtifact {
            artifact_cid: self.artifact_cid.clone(),
            workload_class: self.workload_class.clone(),
            signer_peer_id: self.signer_peer_id.clone(),
            approved_by: self.approved_by.clone(),
            approved_at: self.approved_at,
            revoked: self.revoked,
            revoked_at: self.revoked_at,
            transparency_log_entry: match &self.transparency_log_entry {
                Some(s) => Some(s.clone()),
                None => None,
            },
        }
    }
}

#[derive(Debug)]
struct ArtifactEntry {
    key: String,
    artifact: ApprovedArtifact,
}

spec fn entry_pairs(v: Seq<ArtifactEntry>) -> Seq<(Seq<char>, ArtifactView)> {
    v.map_values(|e: ArtifactEntry| (e.key@, e.artifact@))
}

/// Approved artifacts keyed by the text of their CID.
#[derive(Debug)]
pub struct ArtifactRegistry {
    artifacts: Vec<ArtifactEntry>,
}

impl View for ArtifactRegistry {
    type V = Map<Seq<char>, ArtifactView>;

    closed spec fn view(&self) -> Map<Seq<char>, ArtifactView> {
        keyed_map(entry_pairs(self.artifacts@))
    }
}

/// The artifact with `revoked` set and its revocation time.
pub open spec fn revoked_view(a: ArtifactView, at: u64) -> ArtifactView {
    (a.0, a.1, a.2, a.3, a.4, true, Some(at), a.7)
}

impl ArtifactRegistry {
    /// An empty registry.
    pub fn new() -> (r: ArtifactRegistry)
        ensures
            r@ == Map::<Seq<char>, ArtifactView>::empty(),
    {
        let r = ArtifactRegistry { artifacts: Vec::new() };
        assert(entry_pairs(r.artifacts@) =~= Seq::<(Seq<char>, ArtifactView)>::empty());
        r
    }

    fn find(&self, key: &str) -> (r: Option<usize>)
        ensures
            r matches Some(i) ==> i < self.artifacts@.len() && last_of_key(entry_pairs(self.artifacts@), i as int)
                && entry_pairs(self.artifacts@)[i as int].0 == key@,
            r is None ==> !self@.contains_key(key@),
    {
        let ghost pairs = entry_pairs(self.artifacts@);
        let n = self.artifacts.len();
        let mut i: usize = n;
        while i > 0
            invariant
                n == self.artifacts@.len(),
                pairs == entry_pairs(self.artifacts@),
                i <= n,
                forall|j: int| i <= j < n ==> #[trigger] pairs[j].0 != key@,
            decreases i,
        {
            i = i - 1;
            if str_eq(self.artifacts[i].key.as_str(), key) {
                return Some(i);
            }
        }
        proof { lemma_keyed_absent(pairs, key@); }
        None
    }

    /// Register an artifact under the text of its CID, replacing any earlier
    /// entry; refused when signer and approver are the same identity.
    pub fn register(&mut self, artifact: ApprovedArtifact) -> (r: Result<(), String>)
        ensures
            r is Err <==> artifact.signer_peer_id@ == artifact.approved_by@,
            r matches Err(m) ==> m@ == "Signer and approver must be different identities (FR-S032)"@,
            r is Err ==> final(self)@ == old(self)@,
            r is Ok ==> final(self)@ == old(self)@.insert(spec_cid_text(artifact.artifact_cid@), artifact@),
    {
        if str_eq(artifact.signer_peer_id.as_str(), artifact.approved_by.as_str()) {
            return Err(String::from_str("Signer and approver must be different identities (FR-S032)"));
        }
        let key = artifact.artifact_cid.to_text();
        let ghost pairs = entry_pairs(self.artifacts@);
        match self.find(key.as_str()) {
            Some(i) => {
                let ghost a = artifact@;
                self.artifacts.set(i, ArtifactEntry { key, artifact });
                proof {
                    assert(entry_pairs(self.artifacts@) =~= pairs.update(i as int, (pairs[i as int].0, a)));
                    lemma_keyed_update(pairs, i as int, a);
                }
            },
            None => {
                let ghost k = key@;
                let ghost a = artifact@;
                self.artifacts.push(ArtifactEntry { key, artifact });
                proof {
                    assert(entry_pairs(self.artifacts@) =~= pairs.push((k, a)));
                    lemma_keyed_push(pairs, k, a);
                }
            },
        }
        Ok(())
    }

    /// The artifact of a CID, unless absent or revoked.
    pub fn lookup(&self, cid: &Cid) -> (r: Option<ApprovedArtifact>)
        ensures
            r is Some <==> self@.contains_key(spec_cid_text(cid@)) && !self@[spec_cid_text(cid@)].5,
            r matches Some(a) ==> a@ == self@[spec_cid_text(cid@)],
    {
        let key = cid.to_text();
        match self.find(key.as_str()) {
            Some(i) => {
                proof { lemma_keyed_last(entry_pairs(self.artifacts@), i as int); }
                if self.artifacts[i].artifact.revoked {
                    None
                } else {
                    Some(self.artifacts[i].artifact.clone())
                }
            },
            None => None,
        }
    }

    /// Revoke the artifact of a CID at time `now`.
    pub fn revoke_at(&mut self, cid: &Cid, now: Timestamp) -> (r: Result<(), String>)
        ensures
            r is Ok <==> old(self)@.contains_key(spec_cid_text(cid@)),
            r matches Err(m) ==> m@ == "Artifact not found in registry"@,
            r is Err ==> final(self)@ == old(self)@,
            r is Ok ==> final(self)@ == old(self)@.insert(
                spec_cid_text(cid@),
                revoked_view(old(self)@[spec_cid_text(cid@)], now.0),
            ),
    {
        let key = cid.to_text();
        let ghost pairs = entry_pairs(self.artifacts@);
        match self.find(key.as_str()) {
            Some(i) => {
                proof { lemma_keyed_last(pairs, i as int); }
                let mut a = self.artifacts[i].artifact.clone();
                a.revoked = true;
                a.revoked_at = Some(now);
                let k = self.artifacts[i].key.clone();
                let ghost av = a@;
                self.artifacts.set(i, ArtifactEntry { key: k, artifact: a });
                proof {
                    assert(entry_pairs(self.artifacts@) =~= pairs.update(i as int, (pairs[i as int].0, av)));
                    lemma_keyed_update(pairs, i as int, av);
                }
                Ok(())
            },
            None => Err(String::from_str("Artifact not found in registry")),
        }
    }

    /// Revoke the artifact of a CID now.
    pub fn revoke(&mut self, cid: &Cid) -> (r: Result<(), String>)
        ensures
            r is Ok <==> old(self)@.contains_key(spec_cid_text(cid@)),
            r is Err ==> final(self)@ == old(self)@,
            r is Ok ==> exists|t: u64| final(self)@ == old(self)@.insert(
                spec_cid_text(cid@),
                #[trigger] revoked_view(old(self)@[spec_cid_text(cid@)], t),
            ),
    {
        let now = Timestamp::now();
        self.revoke_at(cid, now)
    }
}

impl Default for ArtifactRegistry {
    fn default() -> (r: ArtifactRegistry)
        ensures
            r@ == Map::<Seq<char>, ArtifactView>::empty(),
    {
        ArtifactRegistry::new()
    }
}

/// A revoked artifact is never returned by a lookup.
pub proof fn law_revoked_never_found(m: Map<Seq<char>, ArtifactView>, key: Seq<char>, a: ArtifactView, t: u64)
    ensures
        m.insert(key, revoked_view(a, t))[key].5,
{
}

} // verus!
