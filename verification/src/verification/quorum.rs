//! Replica quorum: the result that a strict majority of replicas returned
//! is accepted; the replicas that returned anything else dissent.
use vstd::prelude::*;
use crate::error::{ErrorCode, WcError};
use crate::text::{decimal, spec_decimal};
use crate::types::Cid;

verus! {

/// One replica's reported result.
#[derive(Debug)]
pub struct ReplicaResult {
    /// The node that ran the replica.
    pub node_id: String,
    /// CID of the output it produced.
    pub result_cid: Cid,
    /// Wall-clock execution time in milliseconds.
    pub execution_ms: u64,
}

impl Clone for ReplicaResult {
    fn clone(&self) -> (r: Self)
        ensures
            r.node_id@ == self.node_id@,
            r.result_cid@ == self.result_cid@,
            r.execution_ms == self.execution_ms,
    {
        ReplicaResult { node_id: self.node_id.clone(), result_cid: self.result_cid.clone(), execution_ms: self.execution_ms }
    }
}

/// The accepted result of a quorum.
#[derive(Debug)]
pub struct QuorumOutcome {
    /// The CID that the majority agreed on.
    pub accepted_cid: Cid,
    /// Nodes that returned the accepted CID, in report order.
    pub agreeing_nodes: Vec<String>,
    /// Nodes that returned anything else, in report order.
    pub dissenting_nodes: Vec<String>,
    /// Whether a majority was reached.
    pub quorum_reached: bool,
}

/// A CID as a value: codec, multihash code, digest.
pub type CidView = (u64, u64, Seq<u8>);

/// The reports as (node, CID) pairs.
pub open spec fn reports(results: Seq<ReplicaResult>) -> Seq<(Seq<char>, CidView)> {
    results.map_values(|r: ReplicaResult| (r.node_id@, r.result_cid@))
}

/// The report names CID `c`.
pub open spec fn is_cid(c: CidView) -> spec_fn((Seq<char>, CidView)) -> bool {
    |r: (Seq<char>, CidView)| r.1 == c
}

/// The report names another CID than `c`.
pub open spec fn not_cid(c: CidView) -> spec_fn((Seq<char>, CidView)) -> bool {
    |r: (Seq<char>, CidView)| r.1 != c
}

/// Reports that name CID `c`.
pub open spec fn for_cid(rs: Seq<(Seq<char>, CidView)>, c: CidView) -> Seq<(Seq<char>, CidView)> {
    rs.filter(is_cid(c))
}

/// Reports that name another CID than `c`.
pub open spec fn against_cid(rs: Seq<(Seq<char>, CidView)>, c: CidView) -> Seq<(Seq<char>, CidView)> {
    rs.filter(not_cid(c))
}

/// Number of replicas that returned CID `c`.
pub open spec fn votes_for(rs: Seq<(Seq<char>, CidView)>, c: CidView) -> nat {
    for_cid(rs, c).len()
}

/// The node names of some reports.
pub open spec fn node_names(rs: Seq<(Seq<char>, CidView)>) -> Seq<Seq<char>> {
    rs.map_values(|r: (Seq<char>, CidView)| r.0)
}

/// The largest vote count among the CIDs of the first `k` reports.
pub open spec fn max_votes(rs: Seq<(Seq<char>, CidView)>, k: int) -> nat
    decreases k,
{
    if k <= 0 {
        0
    } else {
        let prev = max_votes(rs, k - 1);
        let here = votes_for(rs, rs[k - 1].1);
        if here > prev { here } else { prev }
    }
}

/// Votes needed for a majority of `n` replicas.
pub open spec fn majority_threshold(n: nat) -> nat {
    n / 2 + 1
}

/// The error of `evaluate_quorum`, if any: too few replicas, no results,
/// or no majority.
pub open spec fn quorum_error(rs: Seq<(Seq<char>, CidView)>, min_replicas: u32) -> Option<Seq<char>> {
    let n = rs.len();
    if n < min_replicas {
        Some("Only "@ + spec_decimal(n) + " replicas reported, need at least "@ + spec_decimal(min_replicas as nat))
    } else if n == 0 {
        Some("No results to evaluate"@)
    } else if max_votes(rs, n as int) < majority_threshold(n) {
        Some("No majority: best result has "@ + spec_decimal(max_votes(rs, n as int)) + "/"@ + spec_decimal(n)
            + " votes (need "@ + spec_decimal(majority_threshold(n)) + ")"@)
    } else {
        None
    }
}

proof fn lemma_votes_bounded(rs: Seq<(Seq<char>, CidView)>, a: CidView, b: CidView)
    requires
        a != b,
    ensures
        votes_for(rs, a) + votes_for(rs, b) <= rs.len(),
    decreases rs.len(),
{
    if rs.len() > 0 {
        let init = rs.drop_last();
        lemma_votes_bounded(init, a, b);
        assert(init.push(rs.last()) =~= rs);
        init.lemma_filter_push(rs.last(), is_cid(a));
        init.lemma_filter_push(rs.last(), is_cid(b));
    }
}

/// At most one result can hold a strict majority of the replicas.
pub proof fn law_majority_is_unique(rs: Seq<(Seq<char>, CidView)>, a: CidView, b: CidView)
    requires
        votes_for(rs, a) >= majority_threshold(rs.len()),
        votes_for(rs, b) >= majority_threshold(rs.len()),
    ensures
        a == b,
{
    if a != b {
        lemma_votes_bounded(rs, a, b);
    }
}

/// Every replica either agrees with a CID or dissents from it: the two
/// groups together are all the reports.
pub proof fn law_agree_and_dissent_partition(rs: Seq<(Seq<char>, CidView)>, c: CidView)
    ensures
        for_cid(rs, c).len() + against_cid(rs, c).len() == rs.len(),
    decreases rs.len(),
{
    if rs.len() > 0 {
        let init = rs.drop_last();
        law_agree_and_dissent_partition(init, c);
        assert(init.push(rs.last()) =~= rs);
        init.lemma_filter_push(rs.last(), is_cid(c));
        init.lemma_filter_push(rs.last(), not_cid(c));
    }
}

fn count_votes(results: &[ReplicaResult], c: &Cid) -> (r: usize)
    ensures
        r == votes_for(reports(results@), c@),
{
    let ghost rs = reports(results@);
    let ghost f = is_cid(c@);
    let mut count: usize = 0;
    let mut j: usize = 0;
    while j < results.len()
        invariant
            rs == reports(results@),
            f == is_cid(c@),
            j <= results@.len(),
            count == rs.take(j as int).filter(f).len(),
            count <= j,
        decreases results@.len() - j,
    {
        proof {
            rs.take(j as int).lemma_filter_push(rs[j as int], f);
            assert(rs.take(j as int + 1) =~= rs.take(j as int).push(rs[j as int]));
        }
        if results[j].result_cid.same_as(c) {
            count = count + 1;
        }
        j = j + 1;
    }
    assert(rs.take(results@.len() as int) =~= rs);
    count
}

fn collect_nodes(results: &[ReplicaResult], c: &Cid, agreeing: bool) -> (r: Vec<String>)
    ensures
        agreeing ==> node_names(for_cid(reports(results@), c@)) == r@.map_values(|s: String| s@),
        !agreeing ==> node_names(against_cid(reports(results@), c@)) == r@.map_values(|s: String| s@),
{
    let ghost rs = reports(results@);
    let ghost f = if agreeing { is_cid(c@) } else { not_cid(c@) };
    let mut out: Vec<String> = Vec::new();
    let mut j: usize = 0;
    while j < results.len()
        invariant
            rs == reports(results@),
            f == (if agreeing { is_cid(c@) } else { not_cid(c@) }),
            j <= results@.len(),
            node_names(rs.take(j as int).filter(f)) =~= out@.map_values(|s: String| s@),
        decreases results@.len() - j,
    {
        proof {
            rs.take(j as int).lemma_filter_push(rs[j as int], f);
            assert(rs.take(j as int + 1) =~= rs.take(j as int).push(rs[j as int]));
        }
        let same = results[j].result_cid.same_as(c);
        if same == agreeing {
            let ghost before = out@;
            out.push(results[j].node_id.clone());
            assert(out@.map_values(|s: String| s@) =~= before.map_values(|s: String| s@).push(rs[j as int].0));
        }
        j = j + 1;
    }
    assert(rs.take(results@.len() as int) =~= rs);
    out
}

/// Evaluate replica results: with at least `min_replicas` reports, the CID
/// returned by a strict majority is accepted, its nodes agree and the others
/// dissent. Too few reports, or no majority, is a quorum failure.
pub fn evaluate_quorum(results: &[ReplicaResult], min_replicas: u32) -> (r: Result<QuorumOutcome, WcError>)
    ensures
        r is Err <==> quorum_error(reports(results@), min_replicas) is Some,
        r matches Err(e) ==> e.kind == ErrorCode::QuorumFailure && quorum_error(reports(results@), min_replicas)
            == Some(e.message@),
        r matches Ok(o) ==> {
            let rs = reports(results@);
            &&& votes_for(rs, o.accepted_cid@) >= majority_threshold(rs.len())
            &&& node_names(for_cid(rs, o.accepted_cid@)) == o.agreeing_nodes@.map_values(|s: String| s@)
            &&& node_names(against_cid(rs, o.accepted_cid@)) == o.dissenting_nodes@.map_values(|s: String| s@)
            &&& o.quorum_reached
        },
{
    let ghost rs = reports(results@);
    let n = results.len();
    if n < min_replicas as usize {
        let mut msg = String::from_str("Only ");
        let a = decimal(n as u64);
        msg.append(a.as_str());
        msg.append(" replicas reported, need at least ");
        let b = decimal(min_replicas as u64);
        msg.append(b.as_str());
        return Err(WcError::new(ErrorCode::QuorumFailure, msg));
    }
    if n == 0 {
        return Err(WcError::with_text(ErrorCode::QuorumFailure, "No results to evaluate"));
    }
    let mut best: usize = 0;
    let mut best_count: usize = count_votes(results, &results[0].result_cid);
    assert(rs[0].1 == results@[0].result_cid@);
    assert(max_votes(rs, 0) == 0);
    assert(max_votes(rs, 1) == votes_for(rs, rs[0].1));
    let mut i: usize = 1;
    while i < n
        invariant
            n == results@.len(),
            rs == reports(results@),
            0 < n,
            1 <= i <= n,
            best < n,
            best_count == max_votes(rs, i as int),
            best_count == votes_for(rs, rs[best as int].1),
        decreases n - i,
    {
        let c = count_votes(results, &results[i].result_cid);
        assert(rs[i as int].1 == results@[i as int].result_cid@);
        if c > best_count {
            best_count = c;
            best = i;
        }
        i = i + 1;
    }
    let threshold = n / 2 + 1;
    if best_count < threshold {
        let mut msg = String::from_str("No majority: best result has ");
        let a = decimal(best_count as u64);
        msg.append(a.as_str());
        msg.append("/");
        let b = decimal(n as u64);
        msg.append(b.as_str());
        msg.append(" votes (need ");
        let t = decimal(threshold as u64);
        msg.append(t.as_str());
        msg.append(")");
        return Err(WcError::new(ErrorCode::QuorumFailure, msg));
    }
    let winner = results[best].result_cid.clone();
    let agreeing_nodes = collect_nodes(results, &winner, true);
    let dissenting_nodes = collect_nodes(results, &winner, false);
    Ok(QuorumOutcome { accepted_cid: winner, agreeing_nodes, dissenting_nodes, quorum_reached: true })
}

} // verus!
