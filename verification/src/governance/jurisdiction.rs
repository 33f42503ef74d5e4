//! Article III (Jurisdiction): Cross-Border Migration and Conflict of Laws

use vstd::prelude::*;
use crate::governance::consent::ConsentType;
use crate::text::str_eq;

verus! {

/// The jurisdictional regime for a migration.
#[derive(Debug, Clone)]
pub enum JurisdictionalRegime {
    /// Same trust boundary, same jurisdiction — no data transfer
    NoTransfer,
    /// Same trust boundary, different jurisdiction
    CrossBorder {
        source: String,
        destination: String,
        /// Whether the destination has GDPR adequacy decision
        adequacy: bool,
        /// Whether Standard Contractual Clauses are required
        safeguards_required: bool,
    },
    /// Different trust boundary, same jurisdiction
    TrustBoundaryCrossing {
        source_boundary: String,
        destination_boundary: String,
        /// Privacy impact score (bit pattern of an `f64`; 0.0 = none, 1.0 = severe)
        privacy_impact_bits: u64,
    },
    /// Both trust boundary AND jurisdiction change
    /// → ALWAYS requires Explicit consent (auto-migration FORBIDDEN)
    FullTransfer {
        cross_border: CrossBorderInfo,
        trust_crossing: TrustCrossingInfo,
        /// Always ConsentType::Explicit for full transfers
        consent_required: ConsentType,
    },
}

/// Cross-border transfer information.
#[derive(Debug, Clone)]
pub struct CrossBorderInfo {
    pub source: String,
    pub destination: String,
    /// Whether the destination has an adequacy decision (GDPR Art. 45)
    pub adequacy: bool,
    /// Whether Standard Contractual Clauses are required (GDPR Art. 46(2)(c))
    pub sccs_required: bool,
    /// Whether a Transfer Impact Assessment is required (Schrems II)
    pub transfer_impact_assessment: bool,
}

/// Trust boundary crossing information.
#[derive(Debug, Clone)]
pub struct TrustCrossingInfo {
    pub source: String,
    pub destination: String,
    /// Privacy impact score (bit pattern of an `f64`)
    pub impact_bits: u64,
    /// Number of reflexes that would cross the boundary
    pub reflexes_crossing: usize,
    /// Number of reflexes filtered out (stayed behind)
    pub reflexes_filtered: usize,
}

/// Jurisdictions with GDPR adequacy decisions (European Commission, 2025).
pub open spec fn is_adequate(d: Seq<char>) -> bool {
    ||| d == "JP"@
    ||| d == "UK"@
    ||| d == "KR"@
    ||| d == "CH"@
    ||| d == "IL"@
    ||| d == "NZ"@
    ||| d == "AR"@
    ||| d == "CA"@
    ||| d == "UY"@
    ||| d == "AD"@
    ||| d == "FO"@
    ||| d == "GG"@
    ||| d == "IM"@
    ||| d == "JE"@
    ||| d == "GB"@
    ||| d == "EU"@
}

/// Check whether a destination jurisdiction has GDPR adequacy.
pub fn check_adequacy(_source: &str, destination: &str) -> (b: bool)
    ensures
        b == is_adequate(destination@),
{
    str_eq(destination, "JP") || str_eq(destination, "UK") || str_eq(destination, "KR") || str_eq(
        destination,
        "CH",
    ) || str_eq(destination, "IL") || str_eq(destination, "NZ") || str_eq(destination, "AR") || str_eq(
        destination,
        "CA",
    ) || str_eq(destination, "UY") || str_eq(destination, "AD") || str_eq(destination, "FO") || str_eq(
        destination,
        "GG",
    ) || str_eq(destination, "IM") || str_eq(destination, "JE") || str_eq(destination, "GB") || str_eq(
        destination,
        "EU",
    )
}

/// The regime of a migration between the two jurisdictions and trust
/// boundaries.
pub open spec fn regime_matches(
    r: JurisdictionalRegime,
    old_jurisdiction: Seq<char>,
    new_jurisdiction: Seq<char>,
    old_trust_boundary: Seq<char>,
    new_trust_boundary: Seq<char>,
    privacy_impact_bits: u64,
) -> bool {
    let trust_crossing = old_trust_boundary != new_trust_boundary;
    let geo_crossing = old_jurisdiction != new_jurisdiction;
    let adequacy = is_adequate(new_jurisdiction);
    if !trust_crossing && !geo_crossing {
        r is NoTransfer
    } else if !trust_crossing && geo_crossing {
        r matches JurisdictionalRegime::CrossBorder { source, destination, adequacy: a, safeguards_required } && source@
            == old_jurisdiction && destination@ == new_jurisdiction && a == adequacy && safeguards_required
            == !adequacy
    } else if trust_crossing && !geo_crossing {
        r matches JurisdictionalRegime::TrustBoundaryCrossing {
            source_boundary,
            destination_boundary,
            privacy_impact_bits: p,
        } && source_boundary@ == old_trust_boundary && destination_boundary@ == new_trust_boundary && p
            == privacy_impact_bits
    } else {
        r matches JurisdictionalRegime::FullTransfer { cross_border, trust_crossing: t, consent_required }
            && cross_border.source@ == old_jurisdiction && cross_border.destination@ == new_jurisdiction
            && cross_border.adequacy == adequacy && cross_border.sccs_required == !adequacy
            && cross_border.transfer_impact_assessment && t.source@ == old_trust_boundary && t.destination@
            == new_trust_boundary && t.impact_bits == privacy_impact_bits && t.reflexes_crossing == 0
            && t.reflexes_filtered == 0 && consent_required == ConsentType::Explicit
    }
}

/// The European Commission's adequacy list (with the UK under both of its
/// codes, and the EU itself): each of these destinations is adequate, a
/// migration to it within one trust boundary needs no safeguards, and a
/// destination off the list, such as the US, CN or the empty code, is not
/// adequate.
pub proof fn law_adequacy_list()
    ensures
        is_adequate("JP"@),
        is_adequate("UK"@),
        is_adequate("KR"@),
        is_adequate("CH"@),
        is_adequate("IL"@),
        is_adequate("NZ"@),
        is_adequate("AR"@),
        is_adequate("CA"@),
        is_adequate("UY"@),
        is_adequate("AD"@),
        is_adequate("FO"@),
        is_adequate("GG"@),
        is_adequate("IM"@),
        is_adequate("JE"@),
        is_adequate("GB"@),
        is_adequate("EU"@),
        !is_adequate("US"@),
        !is_adequate("CN"@),
        !is_adequate(Seq::<char>::empty()),
{
    reveal_strlit("US");
    assert("US"@.len() == 2 && "US"@[0] == 'U' && "US"@[1] == 'S');
    reveal_strlit("CN");
    assert("CN"@.len() == 2 && "CN"@[0] == 'C' && "CN"@[1] == 'N');
    reveal_strlit("JP");
    assert("JP"@.len() == 2 && "JP"@[0] == 'J' && "JP"@[1] == 'P');
    reveal_strlit("UK");
    assert("UK"@.len() == 2 && "UK"@[0] == 'U' && "UK"@[1] == 'K');
    reveal_strlit("KR");
    assert("KR"@.len() == 2 && "KR"@[0] == 'K' && "KR"@[1] == 'R');
    reveal_strlit("CH");
    assert("CH"@.len() == 2 && "CH"@[0] == 'C' && "CH"@[1] == 'H');
    reveal_strlit("IL");
    assert("IL"@.len() == 2 && "IL"@[0] == 'I' && "IL"@[1] == 'L');
    reveal_strlit("NZ");
    assert("NZ"@.len() == 2 && "NZ"@[0] == 'N' && "NZ"@[1] == 'Z');
    reveal_strlit("AR");
    assert("AR"@.len() == 2 && "AR"@[0] == 'A' && "AR"@[1] == 'R');
    reveal_strlit("CA");
    assert("CA"@.len() == 2 && "CA"@[0] == 'C' && "CA"@[1] == 'A');
    reveal_strlit("UY");
    assert("UY"@.len() == 2 && "UY"@[0] == 'U' && "UY"@[1] == 'Y');
    reveal_strlit("AD");
    assert("AD"@.len() == 2 && "AD"@[0] == 'A' && "AD"@[1] == 'D');
    reveal_strlit("FO");
    assert("FO"@.len() == 2 && "FO"@[0] == 'F' && "FO"@[1] == 'O');
    reveal_strlit("GG");
    assert("GG"@.len() == 2 && "GG"@[0] == 'G' && "GG"@[1] == 'G');
    reveal_strlit("IM");
    assert("IM"@.len() == 2 && "IM"@[0] == 'I' && "IM"@[1] == 'M');
    reveal_strlit("JE");
    assert("JE"@.len() == 2 && "JE"@[0] == 'J' && "JE"@[1] == 'E');
    reveal_strlit("GB");
    assert("GB"@.len() == 2 && "GB"@[0] == 'G' && "GB"@[1] == 'B');
    reveal_strlit("EU");
    assert("EU"@.len() == 2 && "EU"@[0] == 'E' && "EU"@[1] == 'U');
}

/// Determine the applicable jurisdictional regime for a migration.
pub fn determine_applicable_law(
    old_jurisdiction: &str,
    new_jurisdiction: &str,
    old_trust_boundary: &str,
    new_trust_boundary: &str,
    privacy_impact_bits: u64,
) -> (r: JurisdictionalRegime)
    ensures
        regime_matches(
            r,
            old_jurisdiction@,
            new_jurisdiction@,
            old_trust_boundary@,
            new_trust_boundary@,
            privacy_impact_bits,
        ),
{
    let trust_crossing = !str_eq(old_trust_boundary, new_trust_boundary);
    let geo_crossing = !str_eq(old_jurisdiction, new_jurisdiction);
    if !trust_crossing && !geo_crossing {
        JurisdictionalRegime::NoTransfer
    } else if !trust_crossing && geo_crossing {
        let adequacy = check_adequacy(old_jurisdiction, new_jurisdiction);
        JurisdictionalRegime::CrossBorder {
            source: old_jurisdiction.to_string(),
            destination: new_jurisdiction.to_string(),
            adequacy,
            safeguards_required: !adequacy,
        }
    } else if trust_crossing && !geo_crossing {
        JurisdictionalRegime::TrustBoundaryCrossing {
            source_boundary: old_trust_boundary.to_string(),
            destination_boundary: new_trust_boundary.to_string(),
            privacy_impact_bits,
        }
    } else {
        let adequacy = check_adequacy(old_jurisdiction, new_jurisdiction);
        JurisdictionalRegime::FullTransfer {
            cross_border: CrossBorderInfo {
                source: old_jurisdiction.to_string(),
                destination: new_jurisdiction.to_string(),
                adequacy,
                sccs_required: !adequacy,
                transfer_impact_assessment: true,
            },
            trust_crossing: TrustCrossingInfo {
                source: old_trust_boundary.to_string(),
                destination: new_trust_boundary.to_string(),
                impact_bits: privacy_impact_bits,
                reflexes_crossing: 0,
                reflexes_filtered: 0,
            },
            consent_required: ConsentType::Explicit,
        }
    }
}

/// A migration that crosses both a trust boundary and a border always
/// needs explicit consent.
pub proof fn law_full_transfer_needs_explicit_consent(
    r: JurisdictionalRegime,
    oj: Seq<char>,
    nj: Seq<char>,
    ot: Seq<char>,
    nt: Seq<char>,
    p: u64,
)
    requires
        regime_matches(r, oj, nj, ot, nt, p),
        oj != nj,
        ot != nt,
    ensures
        r matches JurisdictionalRegime::FullTransfer { consent_required, .. } && consent_required
            == ConsentType::Explicit,
{
}

/// Safeguards are required for a cross-border transfer exactly when the
/// destination lacks an adequacy decision.
pub proof fn law_safeguards_iff_inadequate(
    r: JurisdictionalRegime,
    oj: Seq<char>,
    nj: Seq<char>,
    t: Seq<char>,
    p: u64,
)
    requires
        regime_matches(r, oj, nj, t, t, p),
        oj != nj,
    ensures
        r matches JurisdictionalRegime::CrossBorder { safeguards_required, .. } && safeguards_required
            == !is_adequate(nj),
{
}

} // verus!
