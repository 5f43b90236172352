//! Lifecycle of a relay reservation: requested, active until renewal time,
//! renewing, lost (to be reacquired within a minute) or failed. Times are
//! microseconds since the Unix epoch.
use vstd::prelude::*;
use crate::types::now_micros;
use crate::types::ReservationStatus;

verus! {

/// Seconds within which a lost reservation must be reacquired.
pub const MAX_REACQUIRE_SECONDS: i64 = 60;

/// Seconds before expiry at which renewal starts.
pub const RENEW_BEFORE_EXPIRY_SECONDS: i64 = 30;

/// A relay reservation held by this node.
#[derive(Debug, Clone)]
pub struct RelayReservation {
    /// The relay's peer ID.
    pub relay_peer_id: String,
    /// The circuit address through the relay.
    pub circuit_multiaddr: String,
    /// Expiry time.
    pub expires_at: i64,
    /// Time at which to start renewing.
    pub renew_at: i64,
    /// Current state.
    pub status: ReservationStatus,
    /// When the reservation was lost, if it was.
    pub lost_at: Option<i64>,
}

/// An integer clamped to the `i64` range.
pub open spec fn clamp_i64(x: int) -> i64 {
    if x < i64::MIN { i64::MIN } else if x > i64::MAX { i64::MAX } else { x as i64 }
}

/// Division truncating toward zero.
pub open spec fn trunc_div(a: int, b: int) -> int {
    if a >= 0 { a / b } else { -((-a) / b) }
}

fn clamp(x: i128) -> (r: i64)
    ensures
        r == clamp_i64(x as int),
{
    if x < i64::MIN as i128 {
        i64::MIN
    } else if x > i64::MAX as i128 {
        i64::MAX
    } else {
        x as i64
    }
}

impl RelayReservation {
    /// A reservation just requested at `now`; deadlines are unknown until
    /// accepted and are set to `now`.
    pub fn requesting_at(relay_peer_id: String, circuit_multiaddr: String, now: i64) -> (r: RelayReservation)
        ensures
            r.relay_peer_id@ == relay_peer_id@,
            r.circuit_multiaddr@ == circuit_multiaddr@,
            r.expires_at == now,
            r.renew_at == now,
            r.status == ReservationStatus::Requesting,
            r.lost_at is None,
    {
        RelayReservation {
            relay_peer_id,
            circuit_multiaddr,
            expires_at: now,
            renew_at: now,
            status: ReservationStatus::Requesting,
            lost_at: None,
        }
    }

    /// A reservation just requested, stamped with the current time.
    pub fn requesting(relay_peer_id: String, circuit_multiaddr: String) -> (r: RelayReservation)
        ensures
            r.relay_peer_id@ == relay_peer_id@,
            r.circuit_multiaddr@ == circuit_multiaddr@,
            r.expires_at == r.renew_at,
            r.status == ReservationStatus::Requesting,
            r.lost_at is None,
    {
        let now = now_micros();
        RelayReservation::requesting_at(relay_peer_id, circuit_multiaddr, now)
    }

    /// Accepted at `now` for `ttl_seconds`: expires then, renewal 30 s
    /// earlier (times saturate at the ends of the `i64` range).
    pub fn mark_active_at(&mut self, ttl_seconds: i64, now: i64)
        ensures
            final(self).expires_at == clamp_i64(now + ttl_seconds * 1_000_000),
            final(self).renew_at == clamp_i64(final(self).expires_at - RENEW_BEFORE_EXPIRY_SECONDS * 1_000_000),
            final(self).status == ReservationStatus::Active,
            final(self).lost_at is None,
            final(self).relay_peer_id == old(self).relay_peer_id,
            final(self).circuit_multiaddr == old(self).circuit_multiaddr,
    {
        let expires = clamp((now as i128) + (ttl_seconds as i128) * 1_000_000);
        self.expires_at = expires;
        self.renew_at = clamp((expires as i128) - (RENEW_BEFORE_EXPIRY_SECONDS as i128) * 1_000_000);
        self.status = ReservationStatus::Active;
        self.lost_at = None;
    }

    /// Accepted now for `ttl_seconds`.
    pub fn mark_active(&mut self, ttl_seconds: i64)
        ensures
            exists|now: i64| #[trigger] clamp_i64(now + ttl_seconds * 1_000_000) == final(self).expires_at,
            final(self).renew_at == clamp_i64(final(self).expires_at - RENEW_BEFORE_EXPIRY_SECONDS * 1_000_000),
            final(self).status == ReservationStatus::Active,
            final(self).lost_at is None,
            final(self).relay_peer_id == old(self).relay_peer_id,
            final(self).circuit_multiaddr == old(self).circuit_multiaddr,
    {
        let now = now_micros();
        self.mark_active_at(ttl_seconds, now);
    }

    /// Start renewing: only an active reservation becomes renewing.
    pub fn mark_renewing(&mut self)
        ensures
            final(self).status == (if old(self).status == ReservationStatus::Active {
                ReservationStatus::Renewing
            } else {
                old(self).status
            }),
            final(self).expires_at == old(self).expires_at,
            final(self).renew_at == old(self).renew_at,
            final(self).lost_at == old(self).lost_at,
    {
        if self.status == ReservationStatus::Active {
            self.status = ReservationStatus::Renewing;
        }
    }

    /// Lost at `now`.
    pub fn mark_lost_at(&mut self, now: i64)
        ensures
            final(self).status == ReservationStatus::Lost,
            final(self).lost_at == Some(now),
            final(self).expires_at == old(self).expires_at,
            final(self).renew_at == old(self).renew_at,
    {
        self.status = ReservationStatus::Lost;
        self.lost_at = Some(now);
    }

    /// Lost now.
    pub fn mark_lost(&mut self)
        ensures
            final(self).status == ReservationStatus::Lost,
            final(self).lost_at is Some,
            final(self).expires_at == old(self).expires_at,
            final(self).renew_at == old(self).renew_at,
    {
        let now = now_micros();
        self.mark_lost_at(now);
    }

    /// Denied or timed out.
    pub fn mark_failed(&mut self)
        ensures
            final(self).status == ReservationStatus::Failed,
            final(self).lost_at == old(self).lost_at,
            final(self).expires_at == old(self).expires_at,
            final(self).renew_at == old(self).renew_at,
    {
        self.status = ReservationStatus::Failed;
    }

    /// Active and not yet due for renewal at `now`.
    pub fn is_healthy(&self, now: i64) -> (r: bool)
        ensures
            r == (self.status == ReservationStatus::Active && now < self.renew_at),
    {
        self.status == ReservationStatus::Active && now < self.renew_at
    }

    /// Active, due for renewal, and not yet expired at `now`.
    pub fn needs_renewal(&self, now: i64) -> (r: bool)
        ensures
            r == (self.status == ReservationStatus::Active && self.renew_at <= now && now < self.expires_at),
    {
        self.status == ReservationStatus::Active && now >= self.renew_at && now < self.expires_at
    }

    /// Whole seconds (toward zero) since the reservation was lost; `None`
    /// unless it is currently lost.
    pub fn time_since_lost(&self, now: i64) -> (r: Option<i64>)
        ensures
            r == (match self.lost_at {
                Some(t) => if self.status == ReservationStatus::Lost {
                    Some(trunc_div(now - t, 1_000_000) as i64)
                } else {
                    None
                },
                None => None,
            }),
            r is Some ==> self.status == ReservationStatus::Lost,
    {
        if self.status != ReservationStatus::Lost {
            return None;
        }
        match self.lost_at {
            Some(t) => {
                let d = (now as i128) - (t as i128);
                let secs = d / 1_000_000;
                assert(secs == trunc_div(now - t, 1_000_000));
                Some(secs as i64)
            },
            None => None,
        }
    }

    /// Lost less than a minute ago.
    pub fn within_reacquire_budget(&self, now: i64) -> (r: bool)
        ensures
            r == (match self.lost_at {
                Some(t) => self.status == ReservationStatus::Lost && trunc_div(now - t, 1_000_000)
                    < MAX_REACQUIRE_SECONDS,
                None => false,
            }),
    {
        match self.time_since_lost(now) {
            Some(secs) => secs < MAX_REACQUIRE_SECONDS,
            None => false,
        }
    }
}

/// A healthy reservation does not need renewal at the same moment, and an
/// active one is always one or the other until it expires.
pub proof fn law_healthy_or_renewing(r: RelayReservation, now: i64)
    requires
        r.status == ReservationStatus::Active,
        now < r.expires_at,
    ensures
        (now < r.renew_at) != (r.renew_at <= now && now < r.expires_at),
{
}

} // verus!
