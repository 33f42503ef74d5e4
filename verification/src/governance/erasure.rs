//! Article V: The Right to Be Forgotten and Shell Epigenetics

use vstd::prelude::*;
use crate::governance::consent::PartyId;

verus! {

/// The three-zone erasure framework.
#[derive(Debug, Clone, Copy, PartialEq, Eq, Structural)]
pub enum ErasureZone {
    /// Agent data: reflexes, trust scores, predictions, session history
    /// → Full erasure right
    AgentZone,
    /// Interaction data: sandbox profiles, CRDT cells, embedding caches
    /// → Partial erasure right (anonymization, not deletion)
    InteractionZone,
    /// Shell data: thermal history, hardware wear, symbiont configurations
    /// → No erasure right (physical properties, not personal data)
    ShellZone,
}

#[derive(Debug, Clone, Copy, PartialEq, Eq, Structural)]
pub enum ErasureAction {
    /// All data in this zone is deleted
    FullErasure,
    /// Agent's contribution is anonymized (provenance stripped)
    Anonymize,
    /// No erasure right in this zone
    NoErasure,
}

impl ErasureZone {
    /// The erasure right of each zone.
    pub open spec fn spec_erasure_action(&self) -> ErasureAction {
        match self {
            ErasureZone::AgentZone => ErasureAction::FullErasure,
            ErasureZone::InteractionZone => ErasureAction::Anonymize,
            ErasureZone::ShellZone => ErasureAction::NoErasure,
        }
    }

    /// What erasure action is available for this zone.
    pub fn erasure_action(&self) -> (a: ErasureAction)
        ensures
            a == self.spec_erasure_action(),
    {
        match self {
            ErasureZone::AgentZone => ErasureAction::FullErasure,
            ErasureZone::InteractionZone => ErasureAction::Anonymize,
            ErasureZone::ShellZone => ErasureAction::NoErasure,
        }
    }
}

/// An erasure request under GDPR Article 17 / §1.3.
#[derive(Debug, Clone)]
pub struct ErasureRequest {
    /// Who is requesting erasure
    pub requestor: PartyId,
    /// The agent whose data should be erased
    pub target_agent: String,
    /// The shell that holds the data
    pub target_shell: String,
    /// Which zones to erase
    pub zones: Vec<ErasureZone>,
    /// When the request was made (ms)
    pub requested_at_ms: u64,
    /// Deadline for compliance (GDPR: 30 days) (ms)
    pub compliance_deadline_ms: u64,
}

/// The status of the gastrolith (migration snapshot) with respect to erasure.
#[derive(Debug, Clone, Copy, PartialEq, Eq, Structural)]
pub enum GastrolithStatus {
    /// Within rollback window — erasure deferred until deadline (ms)
    ProtectedByRollbackWindow { deadline_ms: u64 },
    /// Rollback window expired — agent data in gastrolith anonymized
    Anonymized,
    /// No gastrolith exists for this agent on this shell
    NotFound,
    /// Gastrolith was erased (no rollback possible)
    Erased,
}

/// The result of an erasure request.
#[derive(Debug, Clone)]
pub struct ErasureResult {
    pub request: ErasureRequest,
    /// Whether agent-zone data was fully erased
    pub agent_zone_erased: bool,
    /// Whether interaction-zone data was anonymized
    pub interaction_zone_anonymized: bool,
    /// Shell zone is always untouched (no erasure right)
    pub shell_zone_untouched: bool,
    /// Status of the gastrolith (migration snapshot)
    pub gastrolith_status: GastrolithStatus,
    /// When the erasure was completed (ms)
    pub completed_at_ms: u64,
}

fn zones_contain(zones: &Vec<ErasureZone>, z: ErasureZone) -> (b: bool)
    ensures
        b == zones@.contains(z),
{
    let mut i: usize = 0;
    while i < zones.len()
        invariant
            i <= zones@.len(),
            forall|j: int| 0 <= j < i ==> zones@[j] != z,
        decreases zones.len() - i,
    {
        if zones[i] == z {
            return true;
        }
        i += 1;
    }
    false
}

impl ErasureResult {
    /// Compliance: agent data erased exactly when asked for, interaction
    /// data anonymized exactly when asked for, and shell data untouched in
    /// every case (the shell zone carries no erasure right).
    pub open spec fn spec_is_compliant(&self) -> bool {
        let zones = self.request.zones@;
        &&& zones.contains(ErasureZone::AgentZone) == self.agent_zone_erased
        &&& zones.contains(ErasureZone::InteractionZone) == self.interaction_zone_anonymized
        &&& self.shell_zone_untouched
    }

    /// Whether the erasure was fully compliant with the request.
    pub fn is_compliant(&self) -> (b: bool)
        ensures
            b == self.spec_is_compliant(),
    {
        let agent_ok = zones_contain(&self.request.zones, ErasureZone::AgentZone) == self.agent_zone_erased;
        let interaction_ok = zones_contain(&self.request.zones, ErasureZone::InteractionZone)
            == self.interaction_zone_anonymized;
        let shell_ok = self.shell_zone_untouched;
        agent_ok && interaction_ok && shell_ok
    }
}

/// Shell data carries no erasure right: only agent data is ever fully
/// erased.
pub proof fn law_only_agent_zone_fully_erased(z: ErasureZone)
    ensures
        z.spec_erasure_action() == ErasureAction::FullErasure <==> z == ErasureZone::AgentZone,
        z == ErasureZone::ShellZone ==> z.spec_erasure_action() == ErasureAction::NoErasure,
{
}

/// Compliance means doing what was asked for and nothing else: a result
/// whose request names the agent zone but whose agent data was not erased,
/// or whose agent data was erased without being asked for, is not
/// compliant; likewise for anonymizing the interaction zone.  A result that
/// did exactly what was asked and left shell data alone is compliant.
pub proof fn law_compliance_follows_the_request(r: ErasureResult)
    ensures
        r.request.zones@.contains(ErasureZone::AgentZone) && !r.agent_zone_erased ==> !r.spec_is_compliant(),
        !r.request.zones@.contains(ErasureZone::AgentZone) && r.agent_zone_erased ==> !r.spec_is_compliant(),
        r.request.zones@.contains(ErasureZone::InteractionZone) && !r.interaction_zone_anonymized
            ==> !r.spec_is_compliant(),
        !r.request.zones@.contains(ErasureZone::InteractionZone) && r.interaction_zone_anonymized
            ==> !r.spec_is_compliant(),
        r.spec_is_compliant() ==> r.shell_zone_untouched && r.agent_zone_erased == r.request.zones@.contains(
            ErasureZone::AgentZone,
        ),
        (r.shell_zone_untouched && r.agent_zone_erased == r.request.zones@.contains(ErasureZone::AgentZone)
            && r.interaction_zone_anonymized == r.request.zones@.contains(ErasureZone::InteractionZone))
            ==> r.spec_is_compliant(),
{
}

/// An erasure that touched shell data is never compliant, whatever zones
/// the request named.
pub proof fn law_touched_shell_is_never_compliant(r: ErasureResult)
    requires
        !r.shell_zone_untouched,
    ensures
        !r.spec_is_compliant(),
{
}

} // verus!
