use vstd::prelude::*;
use crate::chain_data::{contains_outpoint, InscriptionLocations};
use crate::types::{InvalidTargetReason, Outgoing, OutPoint, SatPoint, SendError};

verus! {

/// What a send request is actually aimed at, once validated: a concrete
/// satpoint for the constrained construction path, or a plain amount of
/// satoshis for the direct-transfer path.
#[derive(Clone, Copy, PartialEq, Eq, Structural, Debug)]
pub enum ResolvedTarget {
    Location(SatPoint),
    DirectAmount(u64),
}

/// The resolution rule.
///
/// - A raw satpoint must not coincide with any inscription's location
///   (inscriptions are addressed by identifier, never by raw location) and
///   must not reference a rune-bearing output.
/// - An inscription identifier resolves to the satpoint the chain-data
///   collaborator reports for it, and fails when the identifier is unknown;
///   `inscription_satpoint` is the collaborator's answer.
/// - A plain amount is incompatible with coin control and with explicit
///   output selection, which only apply to satpoint-targeted sends.
pub open spec fn spec_resolve(
    outgoing: Outgoing,
    inscriptions: InscriptionLocations,
    runic_outputs: Seq<OutPoint>,
    inscription_satpoint: Option<SatPoint>,
    coin_control: bool,
    has_explicit_utxos: bool,
) -> Result<ResolvedTarget, SendError> {
    match outgoing {
        Outgoing::SatPoint(sp) => if inscriptions.spec_contains_satpoint(sp) {
            Err(SendError::InvalidTarget(InvalidTargetReason::InscriptionLocation))
        } else if runic_outputs.contains(sp.outpoint) {
            Err(SendError::InvalidTarget(InvalidTargetReason::RunicOutput))
        } else {
            Ok(ResolvedTarget::Location(sp))
        },
        Outgoing::InscriptionId(id) => match inscription_satpoint {
            Some(sp) => Ok(ResolvedTarget::Location(sp)),
            None => Err(SendError::NotFound(id)),
        },
        Outgoing::Amount(amount) => if coin_control || has_explicit_utxos {
            Err(SendError::InvalidRequest)
        } else {
            Ok(ResolvedTarget::DirectAmount(amount))
        },
    }
}

/// Classify the user's send target and validate it against the current
/// inscription and rune location data.
pub fn resolve(
    outgoing: Outgoing,
    inscriptions: &InscriptionLocations,
    runic_outputs: &Vec<OutPoint>,
    inscription_satpoint: Option<SatPoint>,
    coin_control: bool,
    has_explicit_utxos: bool,
) -> (r: Result<ResolvedTarget, SendError>)
    ensures
        r == spec_resolve(
            outgoing,
            *inscriptions,
            runic_outputs@,
            inscription_satpoint,
            coin_control,
            has_explicit_utxos,
        ),
        outgoing matches Outgoing::SatPoint(sp) ==> (inscriptions.spec_contains_satpoint(sp)
            ==> r == Err::<ResolvedTarget, SendError>(
            SendError::InvalidTarget(InvalidTargetReason::InscriptionLocation),
        )),
        outgoing matches Outgoing::SatPoint(sp) ==> (runic_outputs@.contains(sp.outpoint) ==> (r
            matches Err(e) && e is InvalidTarget)),
        outgoing is Amount && (coin_control || has_explicit_utxos) ==> r == Err::<
            ResolvedTarget,
            SendError,
        >(SendError::InvalidRequest),
        outgoing matches Outgoing::InscriptionId(id) ==> (inscription_satpoint is None ==> r
            == Err::<ResolvedTarget, SendError>(SendError::NotFound(id))),
{
    match outgoing {
        Outgoing::SatPoint(sp) => {
            if inscriptions.contains_satpoint(&sp) {
                Err(SendError::InvalidTarget(InvalidTargetReason::InscriptionLocation))
            } else if contains_outpoint(runic_outputs, &sp.outpoint) {
                Err(SendError::InvalidTarget(InvalidTargetReason::RunicOutput))
            } else {
                Ok(ResolvedTarget::Location(sp))
            }
        },
        Outgoing::InscriptionId(id) => {
            match inscription_satpoint {
                Some(sp) => Ok(ResolvedTarget::Location(sp)),
                None => Err(SendError::NotFound(id)),
            }
        },
        Outgoing::Amount(amount) => {
            if coin_control || has_explicit_utxos {
                Err(SendError::InvalidRequest)
            } else {
                Ok(ResolvedTarget::DirectAmount(amount))
            }
        },
    }
}

/// Resolution is a pure function of its inputs: repeated resolutions against
/// identical requests and identical chain-data snapshots produce identical
/// outcomes.
pub proof fn lemma_resolve_deterministic(
    outgoing: Outgoing,
    inscriptions: InscriptionLocations,
    runic_outputs: Seq<OutPoint>,
    inscription_satpoint: Option<SatPoint>,
    coin_control: bool,
    has_explicit_utxos: bool,
    r1: Result<ResolvedTarget, SendError>,
    r2: Result<ResolvedTarget, SendError>,
)
    requires
        r1 == spec_resolve(
            outgoing,
            inscriptions,
            runic_outputs,
            inscription_satpoint,
            coin_control,
            has_explicit_utxos,
        ),
        r2 == spec_resolve(
            outgoing,
            inscriptions,
            runic_outputs,
            inscription_satpoint,
            coin_control,
            has_explicit_utxos,
        ),
    ensures
        r1 == r2,
{
}

} // verus!
