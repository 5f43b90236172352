//! Trust tiers of donor nodes and what each tier requires of a job.
use vstd::prelude::*;

verus! {

/// Trust tier of a node, from software-only (T0) to confidential-GPU (T4).
#[derive(Debug, Clone, Copy, PartialEq, Eq, Structural, PartialOrd, Ord, Hash)]
pub enum TrustTier {
    /// Browser or WASM only.
    T0,
    /// TPM-attested CPU.
    T1,
    /// TPM-attested CPU with a GPU.
    T2,
    /// SEV-SNP or TDX confidential VM.
    T3,
    /// H100 confidential computing.
    T4,
}

/// The tier's rank, 0 to 4.
pub open spec fn tier_rank(t: TrustTier) -> int {
    match t {
        TrustTier::T0 => 0,
        TrustTier::T1 => 1,
        TrustTier::T2 => 2,
        TrustTier::T3 => 3,
        TrustTier::T4 => 4,
    }
}

impl TrustTier {
    /// Replicas a job needs on nodes of this tier: 5 for T0, 3 for T1 and
    /// T2, 1 for T3 and T4.
    pub fn min_replicas(self) -> (r: u32)
        ensures
            r == (if tier_rank(self) == 0 { 5u32 } else if tier_rank(self) <= 2 { 3u32 } else { 1u32 }),
    {
        match self {
            TrustTier::T0 => 5,
            TrustTier::T1 | TrustTier::T2 => 3,
            TrustTier::T3 | TrustTier::T4 => 1,
        }
    }

    /// Whether the tier can run confidential workloads (T3 and T4).
    pub fn supports_confidential(self) -> (r: bool)
        ensures
            r == (tier_rank(self) >= 3),
    {
        match self {
            TrustTier::T3 | TrustTier::T4 => true,
            _ => false,
        }
    }

    /// The tier's rank, 0 to 4.
    pub fn rank(self) -> (r: u8)
        ensures
            r == tier_rank(self),
    {
        match self {
            TrustTier::T0 => 0,
            TrustTier::T1 => 1,
            TrustTier::T2 => 2,
            TrustTier::T3 => 3,
            TrustTier::T4 => 4,
        }
    }
}

/// Tier of a node from its hardware: WASM-only is T0; H100 confidential
/// computing T4; SEV-SNP or TDX T3; TPM with GPU T2; TPM alone T1; else T0.
pub open spec fn spec_classify_trust_tier(
    has_tpm: bool,
    has_sev_snp: bool,
    has_tdx: bool,
    has_h100_cc: bool,
    has_gpu: bool,
    is_wasm_only: bool,
) -> TrustTier {
    if is_wasm_only {
        TrustTier::T0
    } else if has_h100_cc {
        TrustTier::T4
    } else if has_sev_snp || has_tdx {
        TrustTier::T3
    } else if has_tpm && has_gpu {
        TrustTier::T2
    } else if has_tpm {
        TrustTier::T1
    } else {
        TrustTier::T0
    }
}

/// Classify a node's trust tier from its hardware capabilities.
pub fn classify_trust_tier(
    has_tpm: bool,
    has_sev_snp: bool,
    has_tdx: bool,
    has_h100_cc: bool,
    has_gpu: bool,
    is_wasm_only: bool,
) -> (r: TrustTier)
    ensures
        r == spec_classify_trust_tier(has_tpm, has_sev_snp, has_tdx, has_h100_cc, has_gpu, is_wasm_only),
{
    if is_wasm_only {
        return TrustTier::T0;
    }
    if has_h100_cc {
        return TrustTier::T4;
    }
    if has_sev_snp || has_tdx {
        return TrustTier::T3;
    }
    if has_tpm && has_gpu {
        return TrustTier::T2;
    }
    if has_tpm {
        return TrustTier::T1;
    }
    TrustTier::T0
}

/// A higher tier never needs more replicas than a lower one.
pub proof fn law_replicas_fall_with_tier(a: TrustTier, b: TrustTier)
    requires
        tier_rank(a) <= tier_rank(b),
    ensures
        (if tier_rank(b) == 0 { 5int } else if tier_rank(b) <= 2 { 3int } else { 1int })
            <= (if tier_rank(a) == 0 { 5int } else if tier_rank(a) <= 2 { 3int } else { 1int }),
{
}

/// More hardware never lowers the tier: adding any capability other than
/// WASM-only confinement gives at least the same tier.
pub proof fn law_classification_monotone(
    tpm: bool, snp: bool, tdx: bool, h100: bool, gpu: bool,
    tpm2: bool, snp2: bool, tdx2: bool, h1002: bool, gpu2: bool,
)
    requires
        tpm ==> tpm2,
        snp ==> snp2,
        tdx ==> tdx2,
        h100 ==> h1002,
        gpu ==> gpu2,
    ensures
        tier_rank(spec_classify_trust_tier(tpm, snp, tdx, h100, gpu, false))
            <= tier_rank(spec_classify_trust_tier(tpm2, snp2, tdx2, h1002, gpu2, false)),
{
}

/// Each tier above T0 rests on attested hardware: T1 or T2 need a TPM, T2
/// also a GPU, T3 SEV-SNP or TDX, T4 H100 confidential computing, and a
/// WASM-only node is T0. In particular a node with none of TPM, SEV-SNP,
/// TDX or H100 CC is T0, with or without a GPU. Conversely, outside WASM
/// confinement, H100 CC gives T4, SEV-SNP or TDX at least T3, a TPM with a
/// GPU at least T2, and a TPM at least T1.
pub proof fn law_tier_needs_attestation(tpm: bool, snp: bool, tdx: bool, h100: bool, gpu: bool, wasm: bool)
    ensures
        ({
            let t = spec_classify_trust_tier(tpm, snp, tdx, h100, gpu, wasm);
            &&& tier_rank(t) > 0 ==> !wasm
            &&& (t == TrustTier::T1 || t == TrustTier::T2) ==> tpm
            &&& t == TrustTier::T2 ==> gpu
            &&& t == TrustTier::T3 ==> (snp || tdx)
            &&& t == TrustTier::T4 ==> h100
            &&& (!tpm && !snp && !tdx && !h100) ==> tier_rank(t) == 0
            &&& (!wasm && h100) ==> t == TrustTier::T4
            &&& (!wasm && (snp || tdx)) ==> tier_rank(t) >= 3
            &&& (!wasm && tpm && gpu) ==> tier_rank(t) >= 2
            &&& (!wasm && tpm) ==> tier_rank(t) >= 1
        }),
{
}

} // verus!
