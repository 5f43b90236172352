//! Gossip topics and settings.
use vstd::prelude::*;
use crate::external::{duration_from_secs, duration_of_secs};

verus! {

/// Topic of task announcements.
pub const TOPIC_TASK_ANNOUNCEMENTS: &'static str = "wc/task-announcements/1.0.0";

/// Topic of capacity updates.
pub const TOPIC_CAPACITY_UPDATES: &'static str = "wc/capacity-updates/1.0.0";

/// Topic of lease grants.
pub const TOPIC_LEASE_GRANTS: &'static str = "wc/lease-grants/1.0.0";

/// Every topic a node subscribes to.
pub const ALL_TOPICS: [&'static str; 3] = [TOPIC_TASK_ANNOUNCEMENTS, TOPIC_CAPACITY_UPDATES, TOPIC_LEASE_GRANTS];

/// Gossip settings.
#[derive(Debug, Clone)]
pub struct GossipConfig {
    /// Subscribed topics.
    pub topics: Vec<String>,
    /// Heartbeat interval.
    pub heartbeat_interval: std::time::Duration,
    /// Largest message, bytes.
    pub max_transmit_size: usize,
}

/// The three topics.
pub open spec fn all_topic_names() -> Seq<Seq<char>> {
    seq![TOPIC_TASK_ANNOUNCEMENTS@, TOPIC_CAPACITY_UPDATES@, TOPIC_LEASE_GRANTS@]
}

impl Default for GossipConfig {
    /// All three topics, 1 s heartbeat, 1 MiB messages.
    fn default() -> (r: GossipConfig)
        ensures
            r.topics@.map_values(|s: String| s@) == all_topic_names(),
            r.heartbeat_interval == duration_of_secs(1),
            r.max_transmit_size == 1024 * 1024,
    {
        let mut topics: Vec<String> = Vec::new();
        topics.push(String::from_str(TOPIC_TASK_ANNOUNCEMENTS));
        topics.push(String::from_str(TOPIC_CAPACITY_UPDATES));
        topics.push(String::from_str(TOPIC_LEASE_GRANTS));
        assert(topics@.map_values(|s: String| s@) =~= all_topic_names());
        GossipConfig { topics, heartbeat_interval: duration_from_secs(1), max_transmit_size: 1024 * 1024 }
    }
}

} // verus!
