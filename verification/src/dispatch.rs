use vstd::prelude::*;
use crate::chain_data::{
    merge_candidates, merge_entries, seq_has_key, InscriptionLocations, UnspentOutputs,
};
use crate::guard::{protect, spec_inscribed_unspent, spec_protected};
use crate::resolver::{resolve, spec_resolve, ResolvedTarget};
use crate::types::{FeeRate, Outgoing, OutPoint, Output, SatPoint, SendError, Txid};

verus! {

/// The postage policy handed to the transaction builder: target exactly the
/// requested value, or fall back to the platform default postage.
#[derive(Clone, Copy, PartialEq, Eq, Structural, Debug)]
pub enum Target {
    ExactPostage(u64),
    Postage,
}

pub open spec fn spec_postage(requested: Option<u64>) -> Target {
    match requested {
        Some(p) => Target::ExactPostage(p),
        None => Target::Postage,
    }
}

/// A send request as the user states it.
#[derive(Clone, PartialEq, Eq, Debug)]
pub struct Send {
    /// The destination address, already checked against the wallet's
    /// network.
    pub address: String,
    /// What to send.
    pub outgoing: Outgoing,
    /// Outputs the caller explicitly offers for spending, even if
    /// unconfirmed or inscribed.
    pub utxo: Vec<OutPoint>,
    /// When set, only the explicitly offered outputs are candidate inputs.
    pub coin_control: bool,
    pub fee_rate: FeeRate,
    /// Requested postage in satoshis, if any.
    pub postage: Option<u64>,
    /// Outputs that must be spent, e.g. to force child-pays-for-parent.
    pub force_input: Vec<OutPoint>,
}

/// One consistent reading of the chain-data collaborator, taken fresh for
/// this request.
#[derive(Clone, PartialEq, Eq, Debug)]
pub struct ChainSnapshot {
    pub unspent_outputs: UnspentOutputs,
    pub locked_outputs: Vec<OutPoint>,
    pub inscriptions: InscriptionLocations,
    pub runic_outputs: Vec<OutPoint>,
    /// The collaborator's answer to looking up the requested inscription
    /// identifier's current satpoint; meaningful only when the request
    /// sends an inscription by identifier, and `None` when the identifier
    /// is unknown.
    pub inscription_satpoint: Option<SatPoint>,
}

/// Everything the transaction builder needs except the change addresses,
/// which are derived only after the target has been validated.
#[derive(Clone, PartialEq, Eq, Debug)]
pub struct PendingBuild {
    pub satpoint: SatPoint,
    pub inscriptions: InscriptionLocations,
    pub candidates: UnspentOutputs,
    pub locked_outputs: Vec<OutPoint>,
    pub runic_outputs: Vec<OutPoint>,
    pub destination: String,
    pub fee_rate: FeeRate,
    pub postage: Target,
    pub force_input: Vec<OutPoint>,
}

/// The two freshly derived change addresses, kept distinct so the builder
/// can avoid co-mingling inscription postage with ordinary change.
#[derive(Clone, PartialEq, Eq, Debug)]
pub struct ChangeAddresses {
    /// Reserved for non-inscription change.
    pub cardinal: String,
    /// Reserved for postage change.
    pub postage: String,
}

/// The full invocation of the transaction-building collaborator.
#[derive(Clone, PartialEq, Eq, Debug)]
pub struct BuildRequest {
    pub satpoint: SatPoint,
    pub inscriptions: InscriptionLocations,
    pub unspent_outputs: UnspentOutputs,
    pub locked_outputs: Vec<OutPoint>,
    pub runic_outputs: Vec<OutPoint>,
    pub destination: String,
    pub change: ChangeAddresses,
    pub fee_rate: FeeRate,
    pub postage: Target,
    pub force_input: Vec<OutPoint>,
}

impl PendingBuild {
    /// Merge the priced explicit outputs into the candidate set, keeping
    /// values already known.
    pub fn merge_priced(self, values: &Vec<(OutPoint, u64)>) -> (r: PendingBuild)
        requires
            self.candidates.wf(),
        ensures
            r.satpoint == self.satpoint,
            r.inscriptions == self.inscriptions,
            r.candidates.entries@ == merge_entries(self.candidates.entries@, values@),
            r.candidates.wf(),
            r.locked_outputs == self.locked_outputs,
            r.runic_outputs == self.runic_outputs,
            r.destination == self.destination,
            r.fee_rate == self.fee_rate,
            r.postage == self.postage,
            r.force_input == self.force_input,
    {
        PendingBuild {
            satpoint: self.satpoint,
            inscriptions: self.inscriptions,
            candidates: merge_candidates(self.candidates, values),
            locked_outputs: self.locked_outputs,
            runic_outputs: self.runic_outputs,
            destination: self.destination,
            fee_rate: self.fee_rate,
            postage: self.postage,
            force_input: self.force_input,
        }
    }

    /// Attach the two freshly derived change addresses, completing the
    /// builder invocation.
    pub fn with_change(self, change: ChangeAddresses) -> (r: BuildRequest)
        ensures
            r.satpoint == self.satpoint,
            r.inscriptions == self.inscriptions,
            r.unspent_outputs == self.candidates,
            r.locked_outputs == self.locked_outputs,
            r.runic_outputs == self.runic_outputs,
            r.destination == self.destination,
            r.change == change,
            r.fee_rate == self.fee_rate,
            r.postage == self.postage,
            r.force_input == self.force_input,
    {
        BuildRequest {
            satpoint: self.satpoint,
            inscriptions: self.inscriptions,
            unspent_outputs: self.candidates,
            locked_outputs: self.locked_outputs,
            runic_outputs: self.runic_outputs,
            destination: self.destination,
            change,
            fee_rate: self.fee_rate,
            postage: self.postage,
            force_input: self.force_input,
        }
    }
}

/// The dispatcher's state. Each non-terminal state names the one blocking
/// collaborator call the driver must perform next; the matching event feeds
/// its outcome back in. Failing any step aborts the remaining pipeline.
#[derive(Clone, PartialEq, Eq, Debug)]
pub enum SendState {
    /// Direct-transfer path: ask the node to lock `outputs` before any
    /// transfer, so the node's internal coin selection cannot pick a
    /// protected output.
    Locking { outputs: Vec<OutPoint>, address: String, amount: u64, fee_rate: FeeRate },
    /// Direct-transfer path: ask the node to send `amount` satoshis to
    /// `address` at `fee_rate`, with every optional field unset; the node
    /// selects and signs internally.
    Transferring { address: String, amount: u64, fee_rate: FeeRate },
    /// Construction path: ask the node for the value of each output in
    /// `needed`, in order.
    Pricing { needed: Vec<OutPoint>, pending: PendingBuild },
    /// Construction path: derive two fresh change addresses, one for
    /// ordinary change and one for postage change.
    DerivingChange { pending: PendingBuild },
    /// Construction path: invoke the transaction builder with `request`.
    Building { request: BuildRequest },
    /// Ask the node for a wallet-scoped signature over the unsigned
    /// transaction, with no additional sighash parameters.
    Signing { unsigned_transaction: Vec<u8> },
    /// Relay the signed transaction.
    Broadcasting { signed_transaction: Vec<u8> },
    /// The request completed; `output` is the broadcast transaction id.
    Done { output: Output },
    /// The request failed; nothing further may be attempted.
    Failed { error: SendError },
}

/// The outcome of the collaborator call a state asked for. Error payloads
/// carry the collaborator's message unchanged.
#[derive(PartialEq, Eq, Debug)]
pub enum SendEvent {
    Locked { success: bool },
    Transferred { result: Result<Txid, String> },
    Priced { values: Vec<(OutPoint, u64)> },
    ChangeDerived { change: ChangeAddresses },
    Built { result: Result<Vec<u8>, String> },
    Signed { result: Result<Vec<u8>, String> },
    Broadcast { result: Result<Txid, String> },
}

impl SendState {
    /// Candidate input sets carried through the machine keep unique keys.
    pub open spec fn wf(self) -> bool {
        match self {
            SendState::Pricing { pending, .. } => pending.candidates.wf(),
            SendState::DerivingChange { pending } => pending.candidates.wf(),
            SendState::Building { request } => request.unspent_outputs.wf(),
            _ => true,
        }
    }

    /// Which event the driver owes the machine in this state: the outcome
    /// of exactly the call the state asked for. Terminal states expect
    /// nothing.
    pub open spec fn expects(self, event: SendEvent) -> bool {
        match (self, event) {
            (SendState::Locking { .. }, SendEvent::Locked { .. }) => true,
            (SendState::Transferring { .. }, SendEvent::Transferred { .. }) => true,
            (SendState::Pricing { needed, .. }, SendEvent::Priced { values }) => {
                &&& values@.len() == needed@.len()
                &&& forall|i: int| 0 <= i < needed@.len() ==> values@[i].0 == #[trigger] needed@[i]
            },
            (SendState::DerivingChange { .. }, SendEvent::ChangeDerived { .. }) => true,
            (SendState::Building { .. }, SendEvent::Built { .. }) => true,
            (SendState::Signing { .. }, SendEvent::Signed { .. }) => true,
            (SendState::Broadcasting { .. }, SendEvent::Broadcast { .. }) => true,
            _ => false,
        }
    }

    /// The dispatcher's transition relation: what the state after taking
    /// `event` in state `pre` must look like. Over the expected events it
    /// pins `post` down; for a mismatched pair it says nothing.
    pub open spec fn spec_step(pre: SendState, event: SendEvent, post: SendState) -> bool {
        match (pre, event) {
            (
                SendState::Locking { outputs, address, amount, fee_rate },
                SendEvent::Locked { success },
            ) => {
                if success {
                    post == (SendState::Transferring { address, amount, fee_rate })
                } else {
                    post == (SendState::Failed { error: SendError::LockFailed })
                }
            },
            (SendState::Transferring { .. }, SendEvent::Transferred { result }) => {
                match result {
                    Ok(txid) => post == (SendState::Done {
                        output: Output { transaction: txid },
                    }),
                    Err(msg) => post == (SendState::Failed {
                        error: SendError::BroadcastFailed(msg),
                    }),
                }
            },
            (SendState::Pricing { needed, pending }, SendEvent::Priced { values }) => {
                &&& post matches SendState::DerivingChange { pending: p }
                &&& p.satpoint == pending.satpoint
                &&& p.inscriptions == pending.inscriptions
                &&& p.candidates.entries@ == merge_entries(pending.candidates.entries@, values@)
                &&& p.locked_outputs == pending.locked_outputs
                &&& p.runic_outputs == pending.runic_outputs
                &&& p.destination == pending.destination
                &&& p.fee_rate == pending.fee_rate
                &&& p.postage == pending.postage
                &&& p.force_input == pending.force_input
            },
            (SendState::DerivingChange { pending }, SendEvent::ChangeDerived { change }) => {
                &&& post matches SendState::Building { request }
                &&& request.satpoint == pending.satpoint
                &&& request.inscriptions == pending.inscriptions
                &&& request.unspent_outputs == pending.candidates
                &&& request.locked_outputs == pending.locked_outputs
                &&& request.runic_outputs == pending.runic_outputs
                &&& request.destination == pending.destination
                &&& request.change == change
                &&& request.fee_rate == pending.fee_rate
                &&& request.postage == pending.postage
                &&& request.force_input == pending.force_input
            },
            (SendState::Building { .. }, SendEvent::Built { result }) => {
                match result {
                    Ok(tx) => post == (SendState::Signing { unsigned_transaction: tx }),
                    Err(msg) => post == (SendState::Failed {
                        error: SendError::SelectionFailed(msg),
                    }),
                }
            },
            (SendState::Signing { .. }, SendEvent::Signed { result }) => {
                match result {
                    Ok(raw) => post == (SendState::Broadcasting { signed_transaction: raw }),
                    Err(msg) => post == (SendState::Failed {
                        error: SendError::SigningFailed(msg),
                    }),
                }
            },
            (SendState::Broadcasting { .. }, SendEvent::Broadcast { result }) => {
                match result {
                    Ok(txid) => post == (SendState::Done {
                        output: Output { transaction: txid },
                    }),
                    Err(msg) => post == (SendState::Failed {
                        error: SendError::BroadcastFailed(msg),
                    }),
                }
            },
            _ => true,
        }
    }

    /// Advance the machine by one collaborator outcome. The transition
    /// relation is total over the expected events and strictly sequential:
    /// lock before transfer, price before derive, derive before build,
    /// build before sign, sign before broadcast.
    pub fn advance(self, event: SendEvent) -> (next: SendState)
        requires
            self.wf(),
            self.expects(event),
        ensures
            next.wf(),
            SendState::spec_step(self, event, next),
    {
        match (self, event) {
            (
                SendState::Locking { outputs: _, address, amount, fee_rate },
                SendEvent::Locked { success },
            ) => {
                if success {
                    SendState::Transferring { address, amount, fee_rate }
                } else {
                    SendState::Failed { error: SendError::LockFailed }
                }
            },
            (SendState::Transferring { .. }, SendEvent::Transferred { result }) => {
                match result {
                    Ok(txid) => SendState::Done { output: Output { transaction: txid } },
                    Err(msg) => SendState::Failed { error: SendError::BroadcastFailed(msg) },
                }
            },
            (SendState::Pricing { needed: _, pending }, SendEvent::Priced { values }) => {
                SendState::DerivingChange { pending: pending.merge_priced(&values) }
            },
            (SendState::DerivingChange { pending }, SendEvent::ChangeDerived { change }) => {
                SendState::Building { request: pending.with_change(change) }
            },
            (SendState::Building { .. }, SendEvent::Built { result }) => {
                match result {
                    Ok(tx) => SendState::Signing { unsigned_transaction: tx },
                    Err(msg) => SendState::Failed { error: SendError::SelectionFailed(msg) },
                }
            },
            (SendState::Signing { .. }, SendEvent::Signed { result }) => {
                match result {
                    Ok(raw) => SendState::Broadcasting { signed_transaction: raw },
                    Err(msg) => SendState::Failed { error: SendError::SigningFailed(msg) },
                }
            },
            (SendState::Broadcasting { .. }, SendEvent::Broadcast { result }) => {
                match result {
                    Ok(txid) => SendState::Done { output: Output { transaction: txid } },
                    Err(msg) => SendState::Failed { error: SendError::BroadcastFailed(msg) },
                }
            },
            (state, _) => state,
        }
    }
}

/// A transfer is requested only after the node accepted the guard's lock
/// request: the only step into `Transferring` is from `Locking` on a
/// successful lock, so the protected outputs are locked before the transfer
/// call is issued.
pub proof fn lemma_transfer_only_after_lock(pre: SendState, event: SendEvent, post: SendState)
    requires
        pre.expects(event),
        SendState::spec_step(pre, event, post),
        post is Transferring,
    ensures
        pre is Locking,
        event matches SendEvent::Locked { success } && success,
{
}

/// Signing is requested only for a transaction the builder returned: the
/// only step into `Signing` is from `Building` on a successful build, and
/// it signs exactly the transaction that was built.
pub proof fn lemma_sign_only_after_build(pre: SendState, event: SendEvent, post: SendState)
    requires
        pre.expects(event),
        SendState::spec_step(pre, event, post),
        post is Signing,
    ensures
        pre is Building,
        event matches SendEvent::Built { result } && result matches Ok(tx) && post == (
        SendState::Signing { unsigned_transaction: tx }),
{
}

/// Broadcast is requested only for a transaction the node signed: the only
/// step into `Broadcasting` is from `Signing` on a successful signature,
/// and it relays exactly the signed bytes.
pub proof fn lemma_broadcast_only_after_signing(pre: SendState, event: SendEvent, post: SendState)
    requires
        pre.expects(event),
        SendState::spec_step(pre, event, post),
        post is Broadcasting,
    ensures
        pre is Signing,
        event matches SendEvent::Signed { result } && result matches Ok(raw) && post == (
        SendState::Broadcasting { signed_transaction: raw }),
{
}

/// A send completes only through the node's direct transfer or through
/// broadcasting the signed transaction, and the reported transaction id is
/// the one the node returned.
pub proof fn lemma_done_only_by_node(pre: SendState, event: SendEvent, post: SendState)
    requires
        pre.expects(event),
        SendState::spec_step(pre, event, post),
        post is Done,
    ensures
        ({
            ||| {
                &&& pre is Transferring
                &&& event matches SendEvent::Transferred { result }
                &&& result matches Ok(txid)
                &&& post == (SendState::Done { output: Output { transaction: txid } })
            }
            ||| {
                &&& pre is Broadcasting
                &&& event matches SendEvent::Broadcast { result }
                &&& result matches Ok(txid)
                &&& post == (SendState::Done { output: Output { transaction: txid } })
            }
        }),
{
}

/// The explicitly offered outputs that are not yet in the candidate set and
/// therefore still need to be priced, in the order the caller gave them.
pub open spec fn spec_missing(utxo: Seq<OutPoint>, base: Seq<(OutPoint, u64)>) -> Seq<OutPoint>
    decreases utxo.len(),
{
    if utxo.len() == 0 {
        Seq::empty()
    } else {
        let prev = spec_missing(utxo.drop_last(), base);
        if seq_has_key(base, utxo.last()) {
            prev
        } else {
            prev.push(utxo.last())
        }
    }
}

fn missing_outputs(utxo: &Vec<OutPoint>, base: &UnspentOutputs) -> (needed: Vec<OutPoint>)
    ensures
        needed@ == spec_missing(utxo@, base.entries@),
{
    let mut needed: Vec<OutPoint> = Vec::new();
    proof {
        assert(utxo@.subrange(0, 0) =~= Seq::<OutPoint>::empty());
        assert(needed@ =~= spec_missing(utxo@.subrange(0, 0), base.entries@));
    }
    let mut i: usize = 0;
    while i < utxo.len()
        invariant
            i <= utxo@.len(),
            needed@ == spec_missing(utxo@.subrange(0, i as int), base.entries@),
        decreases utxo@.len() - i,
    {
        proof {
            assert(utxo@.subrange(0, i + 1 as int).drop_last() =~= utxo@.subrange(0, i as int));
            assert(utxo@.subrange(0, i + 1 as int).last() == utxo@[i as int]);
        }
        if !base.contains_key(&utxo[i]) {
            needed.push(utxo[i]);
        }
        i += 1;
    }
    proof {
        assert(utxo@.subrange(0, utxo@.len() as int) =~= utxo@);
    }
    needed
}

/// The builder invocation prepared for a resolved satpoint target: the
/// candidate inputs honour coin control (only the caller's outputs) or the
/// wallet's unspent set otherwise, and the postage policy follows the
/// request.
pub open spec fn spec_pending_for(
    pending: PendingBuild,
    request: Send,
    snapshot: ChainSnapshot,
    satpoint: SatPoint,
) -> bool {
    &&& pending.satpoint == satpoint
    &&& pending.inscriptions == snapshot.inscriptions
    &&& pending.candidates.entries@ == (if request.coin_control {
        Seq::<(OutPoint, u64)>::empty()
    } else {
        snapshot.unspent_outputs.entries@
    })
    &&& pending.candidates.wf()
    &&& pending.locked_outputs == snapshot.locked_outputs
    &&& pending.runic_outputs == snapshot.runic_outputs
    &&& pending.destination == request.address
    &&& pending.fee_rate == request.fee_rate
    &&& pending.postage == spec_postage(request.postage)
    &&& pending.force_input == request.force_input
}

impl Send {
    /// Resolve this request against one chain-data snapshot into the first
    /// dispatcher state. Resolution failures yield `Failed` outright, so no
    /// collaborator call is ever requested for an invalid request; a plain
    /// amount enters the direct-transfer path behind the UTXO guard's lock
    /// list; a satpoint or inscription target enters the constrained
    /// construction path, pricing any explicit outputs the candidate set
    /// does not yet hold.
    ///
    /// Explicit outputs and coin control are honoured on the construction
    /// path: under coin control only the caller's outputs are candidates,
    /// otherwise the caller's outputs are merged into the wallet's unspent
    /// set.
    pub fn run(self, snapshot: ChainSnapshot) -> (state: SendState)
        requires
            snapshot.unspent_outputs.wf(),
        ensures
            state.wf(),
            ({
                let resolved = spec_resolve(
                    self.outgoing,
                    snapshot.inscriptions,
                    snapshot.runic_outputs@,
                    snapshot.inscription_satpoint,
                    self.coin_control,
                    self.utxo@.len() > 0,
                );
                match resolved {
                    Err(e) => state == (SendState::Failed { error: e }),
                    Ok(ResolvedTarget::DirectAmount(amount)) => {
                        &&& state matches SendState::Locking {
                            outputs,
                            address,
                            amount: lock_amount,
                            fee_rate,
                        }
                        &&& outputs@ == spec_inscribed_unspent(
                            snapshot.unspent_outputs.entries@,
                            snapshot.inscriptions,
                        ) + snapshot.runic_outputs@
                        &&& (forall|o: OutPoint| #[trigger]
                            outputs@.contains(o) <==> spec_protected(
                                snapshot.unspent_outputs,
                                snapshot.inscriptions,
                                snapshot.runic_outputs@,
                                o,
                            ))
                        &&& address == self.address
                        &&& lock_amount == amount
                        &&& fee_rate == self.fee_rate
                    },
                    Ok(ResolvedTarget::Location(sp)) => {
                        let base = if self.coin_control {
                            Seq::<(OutPoint, u64)>::empty()
                        } else {
                            snapshot.unspent_outputs.entries@
                        };
                        let missing = spec_missing(self.utxo@, base);
                        if missing.len() == 0 {
                            &&& state matches SendState::DerivingChange { pending }
                            &&& spec_pending_for(pending, self, snapshot, sp)
                        } else {
                            &&& state matches SendState::Pricing { needed, pending }
                            &&& needed@ == missing
                            &&& spec_pending_for(pending, self, snapshot, sp)
                        }
                    },
                }
            }),
    {
        let has_explicit_utxos = self.utxo.len() > 0;
        let resolved = resolve(
            self.outgoing,
            &snapshot.inscriptions,
            &snapshot.runic_outputs,
            snapshot.inscription_satpoint,
            self.coin_control,
            has_explicit_utxos,
        );
        match resolved {
            Err(e) => SendState::Failed { error: e },
            Ok(ResolvedTarget::DirectAmount(amount)) => {
                let outputs = protect(
                    &snapshot.unspent_outputs,
                    &snapshot.inscriptions,
                    &snapshot.runic_outputs,
                );
                SendState::Locking {
                    outputs,
                    address: self.address,
                    amount,
                    fee_rate: self.fee_rate,
                }
            },
            Ok(ResolvedTarget::Location(satpoint)) => {
                let base = if self.coin_control {
                    UnspentOutputs::new()
                } else {
                    snapshot.unspent_outputs
                };
                let needed = missing_outputs(&self.utxo, &base);
                let postage = match self.postage {
                    Some(p) => Target::ExactPostage(p),
                    None => Target::Postage,
                };
                let pending = PendingBuild {
                    satpoint,
                    inscriptions: snapshot.inscriptions,
                    candidates: base,
                    locked_outputs: snapshot.locked_outputs,
                    runic_outputs: snapshot.runic_outputs,
                    destination: self.address,
                    fee_rate: self.fee_rate,
                    postage,
                    force_input: self.force_input,
                };
                if needed.len() == 0 {
                    SendState::DerivingChange { pending }
                } else {
                    SendState::Pricing { needed, pending }
                }
            },
        }
    }
}

} // verus!
