//! The WebSocket-over-TLS fallback transport on port 443.
use vstd::prelude::*;
use crate::types::TransportKind;

verus! {

/// Settings of the WSS fallback transport.
#[derive(Debug, Clone)]
pub struct WssTransportConfig {
    /// Whether the transport is used.
    pub enabled: bool,
    /// Listen on TCP 443 (relays only).
    pub listen_on_443: bool,
    /// Dial order among transports (lower first).
    pub fallback_priority: u8,
    /// Refuse connections whose TLS certificate was swapped by a middlebox.
    pub middlebox_pin_check: bool,
    /// Accept TLS inspection, at a lower trust tier.
    pub allow_ssl_inspection: bool,
}

impl Default for WssTransportConfig {
    /// Enabled as a fallback dialer with pin checks, not listening on 443.
    fn default() -> (r: WssTransportConfig)
        ensures
            r.enabled,
            !r.listen_on_443,
            r.fallback_priority == 2,
            r.middlebox_pin_check,
            !r.allow_ssl_inspection,
    {
        WssTransportConfig {
            enabled: true,
            listen_on_443: false,
            fallback_priority: 2,
            middlebox_pin_check: true,
            allow_ssl_inspection: false,
        }
    }
}

impl WssTransportConfig {
    /// The relay preset: the default, listening on 443.
    pub fn for_relay() -> (r: WssTransportConfig)
        ensures
            r.enabled,
            r.listen_on_443,
            r.fallback_priority == 2,
            r.middlebox_pin_check,
            !r.allow_ssl_inspection,
    {
        WssTransportConfig { listen_on_443: true, ..WssTransportConfig::default() }
    }

    /// The preset for networks that inspect TLS: no pin check, inspection
    /// accepted.
    pub fn with_ssl_inspection_allowed() -> (r: WssTransportConfig)
        ensures
            r.enabled,
            !r.listen_on_443,
            r.fallback_priority == 2,
            !r.middlebox_pin_check,
            r.allow_ssl_inspection,
    {
        WssTransportConfig {
            enabled: true,
            listen_on_443: false,
            fallback_priority: 2,
            middlebox_pin_check: false,
            allow_ssl_inspection: true,
        }
    }

    /// Whether connections over this transport get the inspected trust tier.
    pub fn produces_inspected_tier(&self) -> (r: bool)
        ensures
            r == self.allow_ssl_inspection,
    {
        self.allow_ssl_inspection
    }

    /// The transport kind.
    pub fn kind(&self) -> (r: TransportKind)
        ensures
            r == TransportKind::Wss,
    {
        TransportKind::Wss
    }

    /// Reject the contradictory setting of inspection with pin checks.
    pub fn validate(&self) -> (r: Result<(), String>)
        ensures
            r is Err <==> self.allow_ssl_inspection && self.middlebox_pin_check,
            r matches Err(m) ==> m@ == "allow_ssl_inspection=true requires middlebox_pin_check=false (cannot both pin-check and allow inspection)"@,
    {
        if self.allow_ssl_inspection && self.middlebox_pin_check {
            return Err(String::from_str(
                "allow_ssl_inspection=true requires middlebox_pin_check=false (cannot both pin-check and allow inspection)",
            ));
        }
        Ok(())
    }
}

} // verus!
