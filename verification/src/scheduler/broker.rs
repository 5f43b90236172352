//! Regional broker: node roster management and task matching.
use vstd::prelude::*;
use crate::error::{ErrorCode, WcError, WcResult};
use crate::scheduler::ResourceEnvelope;
use crate::text::join3;

verus! {

broadcast use vstd::seq_lib::group_seq_properties;

/// A node registered with the broker.
#[derive(Debug)]
pub struct NodeInfo {
    /// Peer ID string for this node.
    pub peer_id: String,
    /// Region tag such as "us-east-1".
    pub region_code: String,
    /// Declared available capacity.
    pub capacity: ResourceEnvelope,
    /// Trust tier (1 = basic, 2 = attested, 3 = TEE).
    pub trust_tier: u8,
}

impl Clone for NodeInfo {
    fn clone(&self) -> (r: Self)
        ensures
            r == *self,
    {
        NodeInfo {
            peer_id: self.peer_id.clone(),
            region_code: self.region_code.clone(),
            capacity: self.capacity,
            trust_tier: self.trust_tier,
        }
    }
}

/// Minimum resource requirements for task placement.
#[derive(Debug, Clone)]
pub struct TaskRequirements {
    pub min_cpu_millicores: u64,
    pub min_ram_bytes: u64,
    pub min_scratch_bytes: u64,
    pub min_trust_tier: u8,
}

/// Regional broker: an active roster and a standby pool of nodes.
#[derive(Debug)]
pub struct Broker {
    pub broker_id: String,
    pub region_code: String,
    pub node_roster: Vec<NodeInfo>,
    pub standby_pool: Vec<NodeInfo>,
}

/// The peer IDs of a sequence of nodes, in order.
pub open spec fn peer_ids(nodes: Seq<NodeInfo>) -> Seq<Seq<char>> {
    nodes.map_values(|n: NodeInfo| n.peer_id@)
}

/// Whether some node in the sequence carries the peer ID.
pub open spec fn has_peer(nodes: Seq<NodeInfo>, id: Seq<char>) -> bool {
    exists|i: int| 0 <= i < nodes.len() && #[trigger] nodes[i].peer_id@ == id
}

/// Nodes whose peer ID differs from `id`, in their original order.
pub open spec fn without_peer(nodes: Seq<NodeInfo>, id: Seq<char>) -> Seq<NodeInfo> {
    nodes.filter(other_peer(id))
}

/// Whether a node's peer ID differs from `id`.
pub open spec fn other_peer(id: Seq<char>) -> spec_fn(NodeInfo) -> bool {
    |n: NodeInfo| n.peer_id@ != id
}

/// No two nodes of the sequence share a peer ID.
pub open spec fn unique_ids(nodes: Seq<NodeInfo>) -> bool {
    forall|i: int, j: int| 0 <= i < j < nodes.len() ==> #[trigger] nodes[i].peer_id@ != #[trigger] nodes[j].peer_id@
}

/// Whether a node meets every requirement of a task.
pub open spec fn meets(node: NodeInfo, req: TaskRequirements) -> bool {
    &&& node.capacity.cpu_millicores >= req.min_cpu_millicores
    &&& node.capacity.ram_bytes >= req.min_ram_bytes
    &&& node.capacity.scratch_bytes >= req.min_scratch_bytes
    &&& node.trust_tier >= req.min_trust_tier
}

/// Peer IDs of the nodes that meet the requirements, in roster order.
pub open spec fn eligible_ids(nodes: Seq<NodeInfo>, req: TaskRequirements) -> Seq<Seq<char>> {
    peer_ids(nodes.filter(|n: NodeInfo| meets(n, req)))
}

impl Broker {
    /// Whether the peer is registered in the roster or the standby pool.
    pub open spec fn registered(&self, id: Seq<char>) -> bool {
        has_peer(self.node_roster@, id) || has_peer(self.standby_pool@, id)
    }

    /// A broker for the given region with an empty roster and pool.
    pub fn new(broker_id: String, region_code: String) -> (r: Broker)
        ensures
            r.broker_id@ == broker_id@,
            r.region_code@ == region_code@,
            r.node_roster@.len() == 0,
            r.standby_pool@.len() == 0,
    {
        Broker { broker_id, region_code, node_roster: Vec::new(), standby_pool: Vec::new() }
    }

    /// Register a node into the active roster; refused with `AlreadyExists`
    /// when its peer ID is registered anywhere.
    pub fn register_node(&mut self, node_info: NodeInfo) -> (r: WcResult<()>)
        ensures
            r is Err <==> old(self).registered(node_info.peer_id@),
            r matches Err(e) ==> e.kind == ErrorCode::AlreadyExists,
            r is Ok ==> final(self).node_roster@ == old(self).node_roster@.push(node_info),
            r is Err ==> final(self).node_roster@ == old(self).node_roster@,
            final(self).standby_pool@ == old(self).standby_pool@,
            final(self).broker_id == old(self).broker_id,
            final(self).region_code == old(self).region_code,
    {
        let already_active = contains_peer(&self.node_roster, &node_info.peer_id);
        let already_standby = contains_peer(&self.standby_pool, &node_info.peer_id);
        if already_active || already_standby {
            let msg = join3("Node ", node_info.peer_id.as_str(), " is already registered");
            return Err(WcError::new(ErrorCode::AlreadyExists, msg));
        }
        self.node_roster.push(node_info);
        Ok(())
    }

    /// Remove a node from both the roster and the standby pool; refused with
    /// `NotFound` when it is registered in neither.
    pub fn deregister_node(&mut self, peer_id: &String) -> (r: WcResult<()>)
        ensures
            r is Err <==> !old(self).registered(peer_id@),
            r matches Err(e) ==> e.kind == ErrorCode::NotFound,
            final(self).node_roster@ == without_peer(old(self).node_roster@, peer_id@),
            final(self).standby_pool@ == without_peer(old(self).standby_pool@, peer_id@),
            final(self).broker_id == old(self).broker_id,
            final(self).region_code == old(self).region_code,
    {
        let ghost old_roster = self.node_roster@;
        let ghost old_pool = self.standby_pool@;
        let found_active = contains_peer(&self.node_roster, peer_id);
        let found_standby = contains_peer(&self.standby_pool, peer_id);
        let roster = retain_other_peers(&self.node_roster, peer_id);
        let pool = retain_other_peers(&self.standby_pool, peer_id);
        self.node_roster = roster;
        self.standby_pool = pool;
        if !found_active && !found_standby {
            let msg = join3("Node ", peer_id.as_str(), " is not registered");
            return Err(WcError::new(ErrorCode::NotFound, msg));
        }
        Ok(())
    }

    /// Peer IDs of every roster node that meets the requirements, in roster
    /// order; `NoEligibleNodes` when there are none.
    pub fn match_task(&self, requirements: &TaskRequirements) -> (r: WcResult<Vec<String>>)
        ensures
            r is Err <==> eligible_ids(self.node_roster@, *requirements).len() == 0,
            r matches Err(e) ==> e.kind == ErrorCode::NoEligibleNodes,
            r matches Ok(v) ==> v@.map_values(|s: String| s@) == eligible_ids(
                self.node_roster@,
                *requirements,
            ),
    {
        let ghost pred = |n: NodeInfo| meets(n, *requirements);
        let mut eligible: Vec<String> = Vec::new();
        let mut i: usize = 0;
        while i < self.node_roster.len()
            invariant
                i <= self.node_roster@.len(),
                pred == (|n: NodeInfo| meets(n, *requirements)),
                eligible@.map_values(|s: String| s@) == peer_ids(
                    self.node_roster@.take(i as int).filter(pred),
                ),
            decreases self.node_roster@.len() - i,
        {
            let node = &self.node_roster[i];
            proof {
                assert(self.node_roster@.take(i + 1) =~= self.node_roster@.take(i as int).push(
                    *node,
                ));
                self.node_roster@.take(i as int).lemma_filter_push(*node, pred);
            }
            if node.capacity.cpu_millicores >= requirements.min_cpu_millicores
                && node.capacity.ram_bytes >= requirements.min_ram_bytes
                && node.capacity.scratch_bytes >= requirements.min_scratch_bytes
                && node.trust_tier >= requirements.min_trust_tier {
                let ghost before = eligible@;
                eligible.push(node.peer_id.clone());
                proof {
                    assert(eligible@.map_values(|s: String| s@) =~= before.map_values(
                        |s: String| s@,
                    ).push(node.peer_id@));
                    assert(peer_ids(self.node_roster@.take(i as int).filter(pred).push(*node))
                        =~= peer_ids(self.node_roster@.take(i as int).filter(pred)).push(
                        node.peer_id@,
                    ));
                }
            }
            i = i + 1;
        }
        proof {
            assert(self.node_roster@.take(self.node_roster@.len() as int) =~= self.node_roster@);
        }
        if eligible.len() == 0 {
            return Err(WcError::with_text(ErrorCode::NoEligibleNodes, "No nodes meet the task requirements"));
        }
        Ok(eligible)
    }
}

/// Whether some node in the list carries the peer ID.
fn contains_peer(nodes: &Vec<NodeInfo>, id: &String) -> (r: bool)
    ensures
        r == has_peer(nodes@, id@),
{
    let mut i: usize = 0;
    while i < nodes.len()
        invariant
            i <= nodes@.len(),
            forall|j: int| 0 <= j < i ==> nodes@[j].peer_id@ != id@,
        decreases nodes@.len() - i,
    {
        if nodes[i].peer_id == *id {
            return true;
        }
        i = i + 1;
    }
    false
}

/// A copy of the list without the nodes that carry the peer ID.
fn retain_other_peers(nodes: &Vec<NodeInfo>, id: &String) -> (r: Vec<NodeInfo>)
    ensures
        r@ == without_peer(nodes@, id@),
{
    let ghost pred = other_peer(id@);
    let mut out: Vec<NodeInfo> = Vec::new();
    let mut i: usize = 0;
    while i < nodes.len()
        invariant
            i <= nodes@.len(),
            pred == other_peer(id@),
            out@ == nodes@.take(i as int).filter(pred),
        decreases nodes@.len() - i,
    {
        proof {
            assert(nodes@.take(i + 1) =~= nodes@.take(i as int).push(nodes@[i as int]));
            nodes@.take(i as int).lemma_filter_push(nodes@[i as int], pred);
        }
        if nodes[i].peer_id != *id {
            out.push(nodes[i].clone());
        }
        i = i + 1;
    }
    proof {
        assert(nodes@.take(nodes@.len() as int) =~= nodes@);
    }
    out
}

proof fn lemma_without_peer_keeps_unique(nodes: Seq<NodeInfo>, id: Seq<char>)
    requires
        unique_ids(nodes),
    ensures
        unique_ids(without_peer(nodes, id)),
    decreases nodes.len(),
{
    let pred = other_peer(id);
    if nodes.len() > 0 {
        let t = nodes.drop_last();
        let x = nodes.last();
        assert(nodes =~= t.push(x));
        assert(unique_ids(t)) by {
            assert forall|i: int, j: int| 0 <= i < j < t.len() implies #[trigger] t[i].peer_id@
                != #[trigger] t[j].peer_id@ by {
                assert(t[i] == nodes[i] && t[j] == nodes[j]);
            }
        }
        lemma_without_peer_keeps_unique(t, id);
        t.lemma_filter_push(x, pred);
        let ft = t.filter(pred);
        if pred(x) {
            let fx = ft.push(x);
            assert forall|i: int, j: int| 0 <= i < j < fx.len() implies #[trigger] fx[i].peer_id@
                != #[trigger] fx[j].peer_id@ by {
                if j == ft.len() {
                    assert(fx[j] == x);
                    assert(fx[i] == ft[i]);
                    assert(ft.contains(ft[i]));
                    t.lemma_filter_contains_rev(pred, ft[i]);
                    let k = choose|k: int| 0 <= k < t.len() && t[k] == ft[i];
                    assert(nodes[k] == ft[i]);
                    assert(nodes[nodes.len() - 1] == x);
                    assert(nodes[k].peer_id@ != nodes[nodes.len() - 1].peer_id@);
                } else {
                    assert(fx[i] == ft[i] && fx[j] == ft[j]);
                }
            }
        }
    } else {
        assert(without_peer(nodes, id) =~= Seq::<NodeInfo>::empty());
    }
}

/// Registration keeps peer IDs unique: a node whose ID is registered
/// nowhere, added to the roster, collides with no one.
pub proof fn law_registration_keeps_ids_unique(roster: Seq<NodeInfo>, pool: Seq<NodeInfo>, node: NodeInfo)
    requires
        unique_ids(roster + pool),
        !has_peer(roster, node.peer_id@),
        !has_peer(pool, node.peer_id@),
    ensures
        unique_ids(roster.push(node) + pool),
{
    let a = roster + pool;
    let b = roster.push(node) + pool;
    let r = roster.len() as int;
    assert forall|i: int, j: int| 0 <= i < j < b.len() implies #[trigger] b[i].peer_id@ != #[trigger] b[j].peer_id@ by {
        let ai = if i < r { i } else { i - 1 };
        let aj = if j < r { j } else { j - 1 };
        if i == r {
            assert(b[i] == node);
            assert(b[j] == pool[j - r - 1]);
        } else if j == r {
            assert(b[j] == node);
            assert(b[i] == roster[i]);
        } else {
            assert(b[i] == a[ai] && b[j] == a[aj]);
        }
    }
}

/// Deregistration keeps peer IDs unique: removing a peer everywhere leaves
/// no two nodes with one ID.
pub proof fn law_deregistration_keeps_ids_unique(roster: Seq<NodeInfo>, pool: Seq<NodeInfo>, id: Seq<char>)
    requires
        unique_ids(roster + pool),
    ensures
        unique_ids(without_peer(roster, id) + without_peer(pool, id)),
{
    let pred = other_peer(id);
    Seq::filter_distributes_over_add(roster, pool, pred);
    lemma_without_peer_keeps_unique(roster + pool, id);
}

/// Some roster node with this peer ID has at least the task's CPU, RAM,
/// scratch space and trust tier.
pub open spec fn matched_by_fit_node(nodes: Seq<NodeInfo>, req: TaskRequirements, id: Seq<char>) -> bool {
    exists|i: int| #![trigger nodes[i]] {
        &&& 0 <= i < nodes.len()
        &&& nodes[i].peer_id@ == id
        &&& req.min_cpu_millicores <= nodes[i].capacity.cpu_millicores
        &&& req.min_ram_bytes <= nodes[i].capacity.ram_bytes
        &&& req.min_scratch_bytes <= nodes[i].capacity.scratch_bytes
        &&& req.min_trust_tier <= nodes[i].trust_tier
    }
}

/// Matching respects every minimum: each peer ID `match_task` returns is
/// the ID of a roster node with at least the required CPU, RAM, scratch
/// space and trust tier; every such node's ID is returned; and when IDs are
/// unique, a node short of any minimum (less RAM than required, say) is
/// never returned.
pub proof fn law_matched_nodes_meet_requirements(nodes: Seq<NodeInfo>, req: TaskRequirements)
    ensures
        forall|j: int| 0 <= j < eligible_ids(nodes, req).len() ==> #[trigger] matched_by_fit_node(nodes, req, eligible_ids(nodes, req)[j]),
        forall|i: int| #![trigger nodes[i]] {
            &&& 0 <= i < nodes.len()
            &&& nodes[i].capacity.cpu_millicores >= req.min_cpu_millicores
            &&& nodes[i].capacity.ram_bytes >= req.min_ram_bytes
            &&& nodes[i].capacity.scratch_bytes >= req.min_scratch_bytes
            &&& nodes[i].trust_tier >= req.min_trust_tier
        } ==> eligible_ids(nodes, req).contains(nodes[i].peer_id@),
        unique_ids(nodes) ==> forall|i: int| #![trigger nodes[i]] {
            &&& 0 <= i < nodes.len()
            &&& {
                ||| nodes[i].capacity.cpu_millicores < req.min_cpu_millicores
                ||| nodes[i].capacity.ram_bytes < req.min_ram_bytes
                ||| nodes[i].capacity.scratch_bytes < req.min_scratch_bytes
                ||| nodes[i].trust_tier < req.min_trust_tier
            }
        } ==> !eligible_ids(nodes, req).contains(nodes[i].peer_id@),
{
    broadcast use vstd::seq_lib::group_filter_ensures;
    let pred = |n: NodeInfo| meets(n, req);
    let f = nodes.filter(pred);
    let ids = eligible_ids(nodes, req);
    assert(ids == peer_ids(f));
    assert forall|j: int| 0 <= j < eligible_ids(nodes, req).len() implies #[trigger] matched_by_fit_node(nodes, req, eligible_ids(nodes, req)[j]) by {
        assert(pred(f[j]));
        assert(f.contains(f[j]));
        nodes.lemma_filter_contains_rev(pred, f[j]);
        let i = choose|i: int| 0 <= i < nodes.len() && nodes[i] == f[j];
        assert(nodes[i].peer_id@ == ids[j]);
    }
    assert forall|i: int| #![trigger nodes[i]] {
        &&& 0 <= i < nodes.len()
        &&& nodes[i].capacity.cpu_millicores >= req.min_cpu_millicores
        &&& nodes[i].capacity.ram_bytes >= req.min_ram_bytes
        &&& nodes[i].capacity.scratch_bytes >= req.min_scratch_bytes
        &&& nodes[i].trust_tier >= req.min_trust_tier
    } implies ids.contains(nodes[i].peer_id@) by {
        assert(pred(nodes[i]));
        assert(f.contains(nodes[i]));
        let j = choose|j: int| 0 <= j < f.len() && f[j] == nodes[i];
        assert(ids[j] == nodes[i].peer_id@);
    }
    if unique_ids(nodes) {
        assert forall|i: int| #![trigger nodes[i]] {
            &&& 0 <= i < nodes.len()
            &&& {
                ||| nodes[i].capacity.cpu_millicores < req.min_cpu_millicores
                ||| nodes[i].capacity.ram_bytes < req.min_ram_bytes
                ||| nodes[i].capacity.scratch_bytes < req.min_scratch_bytes
                ||| nodes[i].trust_tier < req.min_trust_tier
            }
        } implies !ids.contains(nodes[i].peer_id@) by {
            if ids.contains(nodes[i].peer_id@) {
                let j = choose|j: int| 0 <= j < ids.len() && ids[j] == nodes[i].peer_id@;
                assert(pred(f[j]));
                assert(f.contains(f[j]));
                nodes.lemma_filter_contains_rev(pred, f[j]);
                let k = choose|k: int| 0 <= k < nodes.len() && nodes[k] == f[j];
                assert(nodes[k].peer_id@ == nodes[i].peer_id@);
                if k < i {
                    assert(nodes[k].peer_id@ != nodes[i].peer_id@);
                } else if k > i {
                    assert(nodes[i].peer_id@ != nodes[k].peer_id@);
                }
            }
        }
    }
}

} // verus!
